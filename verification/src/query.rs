//! The direction resolver and the query compositor.
//!
//! The compositor turns the two pattern groups, the lookup direction and
//! the store schema into a single query text: the primary group's
//! predicate unioned with the fallback group's, projected onto (source
//! text, destination text, resolved category, usage count) and ordered by
//! resolved category ascending, usage descending, source text ascending.
//! The category substitution (empty string to "unknown") is part of the
//! query itself, so that the ordering already sees the substituted text.
//!
//! The query text is a function of the schema's names and of the groups'
//! verb-constraint flags alone. A pattern's text — and with it the search
//! term — never reaches the query text: every pattern is carried as a
//! positional bound parameter.

use vstd::prelude::*;
use vstd::string::*;
use crate::pattern::{flags_of, models_of, primary_models, fallback_models, Pattern};

verus! {

/// The lookup direction: which stored text column is matched against the
/// term (the source) and which is returned as the destination.
#[derive(Clone, Copy, PartialEq, Eq, Structural, Debug)]
pub enum Direction {
    /// Match the first language's column, return the second language's.
    Lang1ToLang2,
    /// Match the second language's column, return the first language's.
    Lang2ToLang1,
}

/// The store schema and the injected extra patterns, passed in explicitly
/// so that the matching rules are testable independently of any single
/// dataset's layout.
pub struct Config {
    /// The table holding the entries.
    pub table: String,
    /// The column with the first language's text.
    pub lang1_col: String,
    /// The column with the second language's text.
    pub lang2_col: String,
    /// The column with the grammatical category; may hold the empty
    /// string, which resolves to the literal text "unknown".
    pub category_col: String,
    /// The column with the observed usage count.
    pub usage_col: String,
    /// Additional dataset-specific pattern texts for the primary group,
    /// in binding order.
    pub extra_patterns: Vec<String>,
}

impl Config {
    /// The schema of the dict.cc dataset, with no extra patterns.
    pub fn dictcc() -> (r: Config)
        ensures
            r.table@ == "main_ft"@,
            r.lang1_col@ == "term1"@,
            r.lang2_col@ == "term2"@,
            r.category_col@ == "entry_type"@,
            r.usage_col@ == "vt_usage"@,
            r.extra_patterns@ == Seq::<String>::empty(),
    {
        Config {
            table: String::from_str("main_ft"),
            lang1_col: String::from_str("term1"),
            lang2_col: String::from_str("term2"),
            category_col: String::from_str("entry_type"),
            usage_col: String::from_str("vt_usage"),
            extra_patterns: Vec::new(),
        }
    }
}

/// The column matched against the patterns under the given direction.
pub open spec fn spec_src_col(config: Config, direction: Direction) -> Seq<char> {
    if direction is Lang1ToLang2 {
        config.lang1_col@
    } else {
        config.lang2_col@
    }
}

/// The column returned as the destination under the given direction.
pub open spec fn spec_dst_col(config: Config, direction: Direction) -> Seq<char> {
    if direction is Lang1ToLang2 {
        config.lang2_col@
    } else {
        config.lang1_col@
    }
}

/// Selects the (source, destination) column pair for a direction. The
/// mapping is a fixed table over a closed enumeration; there is no error
/// case.
pub fn resolve_columns<'a>(config: &'a Config, direction: &Direction) -> (r: (&'a str, &'a str))
    ensures
        r.0@ == spec_src_col(*config, *direction),
        r.1@ == spec_dst_col(*config, *direction),
{
    match direction {
        Direction::Lang1ToLang2 => (config.lang1_col.as_str(), config.lang2_col.as_str()),
        Direction::Lang2ToLang1 => (config.lang2_col.as_str(), config.lang1_col.as_str()),
    }
}

/// One predicate atom of a WHERE clause: a positional-parameter match on
/// the source column, wrapped with the category constraint when the
/// pattern is verb-only.
pub open spec fn like_atom(src: Seq<char>, verb_only: bool) -> Seq<char> {
    if verb_only {
        "("@ + src + " LIKE ? AND __type__='verb')"@
    } else {
        src + " LIKE ?"@
    }
}

/// The OR-joined predicate atoms for a group's flags, in binding order.
pub open spec fn or_chain(src: Seq<char>, flags: Seq<bool>) -> Seq<char>
    decreases flags.len(),
{
    if flags.len() == 0 {
        Seq::empty()
    } else if flags.len() == 1 {
        like_atom(src, flags[0])
    } else {
        or_chain(src, flags.drop_last()) + " OR "@ + like_atom(src, flags.last())
    }
}

/// The projection: source, destination, the category with the empty
/// string already substituted by "unknown" (so the ordering sees the
/// substituted text), and the usage count.
pub open spec fn select_clause(
    src: Seq<char>,
    dst: Seq<char>,
    category: Seq<char>,
    usage: Seq<char>,
    table: Seq<char>,
) -> Seq<char> {
    "SELECT "@ + src + ","@ + dst + ", CASE "@ + category + " WHEN '' THEN 'unknown' ELSE "@
        + category + " END AS __type__, "@ + usage + " FROM "@ + table
}

/// The rank rule: resolved category ascending, then usage descending,
/// then source text ascending.
pub open spec fn order_clause(src: Seq<char>, usage: Seq<char>) -> Seq<char> {
    "ORDER BY __type__ ASC, "@ + usage + " DESC, "@ + src + " ASC"@
}

/// The whole query: the projection filtered by the primary group's
/// predicate, unioned (which merges identical rows — the engine's only
/// deduplication) with the same projection filtered by the fallback
/// group's predicate, then ordered.
pub open spec fn query_text(
    src: Seq<char>,
    dst: Seq<char>,
    category: Seq<char>,
    usage: Seq<char>,
    table: Seq<char>,
    primary_flags: Seq<bool>,
    fallback_flags: Seq<bool>,
) -> Seq<char> {
    select_clause(src, dst, category, usage, table) + " WHERE "@ + or_chain(src, primary_flags)
        + " UNION "@ + select_clause(src, dst, category, usage, table) + " WHERE "@ + or_chain(
        src,
        fallback_flags,
    ) + " "@ + order_clause(src, usage)
}

fn append_select(out: &mut String, src: &str, dst: &str, config: &Config)
    ensures
        final(out)@ == old(out)@ + select_clause(
            src@,
            dst@,
            config.category_col@,
            config.usage_col@,
            config.table@,
        ),
{
    out.append("SELECT ");
    out.append(src);
    out.append(",");
    out.append(dst);
    out.append(", CASE ");
    out.append(config.category_col.as_str());
    out.append(" WHEN '' THEN 'unknown' ELSE ");
    out.append(config.category_col.as_str());
    out.append(" END AS __type__, ");
    out.append(config.usage_col.as_str());
    out.append(" FROM ");
    out.append(config.table.as_str());
}

fn append_where(out: &mut String, src: &str, patterns: &Vec<Pattern>)
    ensures
        final(out)@ == old(out)@ + " WHERE "@ + or_chain(src@, flags_of(models_of(patterns@))),
{
    out.append(" WHERE ");
    let ghost flags = flags_of(models_of(patterns@));
    let mut i: usize = 0;
    while i < patterns.len()
        invariant
            i <= patterns@.len(),
            flags == flags_of(models_of(patterns@)),
            flags.len() == patterns@.len(),
            out@ == old(out)@ + " WHERE "@ + or_chain(src@, flags.take(i as int)),
        decreases patterns@.len() - i,
    {
        proof {
            assert(flags.take(i + 1).drop_last() =~= flags.take(i as int));
            assert(flags.take(i + 1).last() == flags[i as int]);
        }
        if i > 0 {
            out.append(" OR ");
        }
        if patterns[i].verb_only {
            out.append("(");
            out.append(src);
            out.append(" LIKE ? AND __type__='verb')");
        } else {
            out.append(src);
            out.append(" LIKE ?");
        }
        i = i + 1;
    }
    proof {
        assert(flags.take(patterns@.len() as int) =~= flags);
    }
}

/// Composes the full query text for the given schema, direction and
/// pattern groups. The text depends on the schema's names and on the
/// groups' verb-constraint flags alone: no pattern text, and so no part
/// of the search term, is ever spliced into it — the patterns travel
/// exclusively as bound parameters.
pub fn compose_query(
    config: &Config,
    direction: &Direction,
    primary: &Vec<Pattern>,
    fallback: &Vec<Pattern>,
) -> (r: String)
    ensures
        r@ == query_text(
            spec_src_col(*config, *direction),
            spec_dst_col(*config, *direction),
            config.category_col@,
            config.usage_col@,
            config.table@,
            flags_of(models_of(primary@)),
            flags_of(models_of(fallback@)),
        ),
{
    let (src, dst) = resolve_columns(config, direction);
    let mut out = String::new();
    append_select(&mut out, src, dst, config);
    append_where(&mut out, src, primary);
    out.append(" UNION ");
    append_select(&mut out, src, dst, config);
    append_where(&mut out, src, fallback);
    out.append(" ");
    out.append("ORDER BY __type__ ASC, ");
    out.append(config.usage_col.as_str());
    out.append(" DESC, ");
    out.append(src);
    out.append(" ASC");
    out
}

/// Law: two lookups whose injected extra-pattern lists have the same
/// length produce letter-for-letter the same query text, whatever their
/// terms hold. A term — quotes, wildcards or any other of the store's
/// control characters included — can therefore never alter the query; it
/// is neutralized by parameter binding.
pub proof fn lemma_query_text_term_independent(
    config: Config,
    direction: Direction,
    t1: Seq<char>,
    t2: Seq<char>,
    e1: Seq<Seq<char>>,
    e2: Seq<Seq<char>>,
)
    requires
        e1.len() == e2.len(),
    ensures
        query_text(
            spec_src_col(config, direction),
            spec_dst_col(config, direction),
            config.category_col@,
            config.usage_col@,
            config.table@,
            flags_of(primary_models(t1, e1)),
            flags_of(fallback_models(t1)),
        ) == query_text(
            spec_src_col(config, direction),
            spec_dst_col(config, direction),
            config.category_col@,
            config.usage_col@,
            config.table@,
            flags_of(primary_models(t2, e2)),
            flags_of(fallback_models(t2)),
        ),
{
    crate::pattern::lemma_flags_term_independent(t1, t2, e1, e2);
}

} // verus!
