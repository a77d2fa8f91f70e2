//! The pattern generator.
//!
//! A search term is expanded into two ordered groups of match patterns.
//! The primary group catches entries whose stored text equals the term up
//! to a trailing bracketed annotation, plus verb entries written with the
//! infinitive marker "to "; the fallback group catches entries in which
//! the term appears as a leading, trailing or interior word of a longer
//! phrase. A `%` in a pattern is the store matcher's "any substring"
//! wildcard. The order of the patterns within the groups is significant:
//! it is the order in which their texts are later bound as query
//! parameters.
//!
//! A term containing the matcher's own wildcard metacharacters is passed
//! through unescaped, so such a term matches more than its literal text.
//! That is a known, accepted limitation of the matching rules — flagged
//! here rather than silently changed. It cannot widen the query itself:
//! a pattern travels only as a bound parameter, never as query text.

use vstd::prelude::*;
use vstd::string::*;

verus! {

/// One match pattern: the text handed to the store's matcher as a bound
/// parameter, and whether the pattern applies only to entries whose
/// resolved category is "verb".
pub struct Pattern {
    pub text: String,
    pub verb_only: bool,
}

impl View for Pattern {
    type V = (Seq<char>, bool);

    open spec fn view(&self) -> (Seq<char>, bool) {
        (self.text@, self.verb_only)
    }
}

/// The models of a sequence of patterns.
pub open spec fn models_of(ps: Seq<Pattern>) -> Seq<(Seq<char>, bool)> {
    ps.map_values(|p: Pattern| p@)
}

/// The views of a sequence of strings.
pub open spec fn views_of(es: Seq<String>) -> Seq<Seq<char>> {
    es.map_values(|e: String| e@)
}

/// The pattern texts of a group, in binding order.
pub open spec fn texts_of(ms: Seq<(Seq<char>, bool)>) -> Seq<Seq<char>> {
    ms.map_values(|m: (Seq<char>, bool)| m.0)
}

/// The category-constraint flags of a group, in binding order.
pub open spec fn flags_of(ms: Seq<(Seq<char>, bool)>) -> Seq<bool> {
    ms.map_values(|m: (Seq<char>, bool)| m.1)
}

/// The fixed head of the primary group: the exact term, then the four
/// single-space bracketed-suffix patterns (angle, square, curly, round),
/// then the double-space variant of each, tolerating the dataset's
/// known double-space-before-bracket formatting inconsistency.
pub open spec fn primary_head(term: Seq<char>) -> Seq<(Seq<char>, bool)> {
    seq![
        (term, false),
        (term + " <%>"@, false),
        (term + " [%]"@, false),
        (term + " {%}"@, false),
        (term + " (%)"@, false),
        (term + "  <%>"@, false),
        (term + "  [%]"@, false),
        (term + "  {%}"@, false),
        (term + "  (%)"@, false),
    ]
}

/// The verb-specific tail of the primary group: the infinitive form and
/// the infinitive form followed by anything, each constrained to entries
/// of category "verb" so that, say, noun entries starting with "to " are
/// not caught by these two patterns.
pub open spec fn primary_verb_tail(term: Seq<char>) -> Seq<(Seq<char>, bool)> {
    seq![("to "@ + term, true), ("to "@ + term + " %"@, true)]
}

/// Wraps injected extra patterns as unconstrained group members.
pub open spec fn extras_models(extras: Seq<Seq<char>>) -> Seq<(Seq<char>, bool)> {
    extras.map_values(|e: Seq<char>| (e, false))
}

/// The primary group, in binding order: the fixed head, then the injected
/// extra patterns verbatim, then the two verb-constrained patterns.
pub open spec fn primary_models(term: Seq<char>, extras: Seq<Seq<char>>) -> Seq<
    (Seq<char>, bool),
> {
    primary_head(term) + extras_models(extras) + primary_verb_tail(term)
}

/// The fallback group, in binding order: the term as a leading word, as a
/// trailing word, and as an interior word of a longer stored phrase. It
/// is unioned with the primary group as an independent second query.
pub open spec fn fallback_models(term: Seq<char>) -> Seq<(Seq<char>, bool)> {
    seq![(term + " %"@, false), ("% "@ + term, false), ("% "@ + term + " %"@, false)]
}

fn suffixed(term: &str, suffix: &str) -> (r: Pattern)
    ensures
        r@ == (term@ + suffix@, false),
{
    let mut text = String::from_str(term);
    text.append(suffix);
    Pattern { text, verb_only: false }
}

/// Generates the two pattern groups for a term, with the injected extra
/// patterns (an ordered, dataset-specific list of additional pattern
/// texts) placed between the fixed head and the verb tail of the primary
/// group.
pub fn generate_patterns(term: &str, extras: &Vec<String>) -> (r: (Vec<Pattern>, Vec<Pattern>))
    ensures
        models_of(r.0@) == primary_models(term@, views_of(extras@)),
        models_of(r.1@) == fallback_models(term@),
{
    let mut primary: Vec<Pattern> = Vec::new();
    primary.push(Pattern { text: String::from_str(term), verb_only: false });
    primary.push(suffixed(term, " <%>"));
    primary.push(suffixed(term, " [%]"));
    primary.push(suffixed(term, " {%}"));
    primary.push(suffixed(term, " (%)"));
    primary.push(suffixed(term, "  <%>"));
    primary.push(suffixed(term, "  [%]"));
    primary.push(suffixed(term, "  {%}"));
    primary.push(suffixed(term, "  (%)"));
    assert(models_of(primary@) =~= primary_head(term@));

    let mut i: usize = 0;
    while i < extras.len()
        invariant
            i <= extras@.len(),
            models_of(primary@) =~= primary_head(term@) + extras_models(
                views_of(extras@).take(i as int),
            ),
        decreases extras@.len() - i,
    {
        let ghost prev = models_of(primary@);
        let pat = Pattern { text: extras[i].clone(), verb_only: false };
        let ghost pv = pat@;
        primary.push(pat);
        proof {
            let evs = views_of(extras@);
            assert(models_of(primary@) =~= prev.push(pv));
            assert(extras_models(evs.take(i + 1)) =~= extras_models(evs.take(i as int)).push(pv));
            assert(primary_head(term@) + extras_models(evs.take(i as int)).push(pv)
                =~= (primary_head(term@) + extras_models(evs.take(i as int))).push(pv));
        }
        i = i + 1;
    }
    proof {
        assert(views_of(extras@).take(extras@.len() as int) =~= views_of(extras@));
    }

    let mut to_exact = String::from_str("to ");
    to_exact.append(term);
    primary.push(Pattern { text: to_exact, verb_only: true });
    let mut to_wild = String::from_str("to ");
    to_wild.append(term);
    to_wild.append(" %");
    primary.push(Pattern { text: to_wild, verb_only: true });
    assert(models_of(primary@) =~= primary_models(term@, views_of(extras@)));

    let mut fallback: Vec<Pattern> = Vec::new();
    fallback.push(suffixed(term, " %"));
    let mut leading = String::from_str("% ");
    leading.append(term);
    fallback.push(Pattern { text: leading, verb_only: false });
    let mut interior = String::from_str("% ");
    interior.append(term);
    interior.append(" %");
    fallback.push(Pattern { text: interior, verb_only: false });
    assert(models_of(fallback@) =~= fallback_models(term@));

    (primary, fallback)
}

/// Law: the layout of the groups — how many patterns each holds and which
/// of them carry the verb constraint — depends only on the number of
/// injected extra patterns, never on the term or on any pattern text.
pub proof fn lemma_flags_term_independent(
    t1: Seq<char>,
    t2: Seq<char>,
    e1: Seq<Seq<char>>,
    e2: Seq<Seq<char>>,
)
    requires
        e1.len() == e2.len(),
    ensures
        flags_of(primary_models(t1, e1)) == flags_of(primary_models(t2, e2)),
        flags_of(fallback_models(t1)) == flags_of(fallback_models(t2)),
{
    assert(flags_of(primary_models(t1, e1)) =~= flags_of(primary_models(t2, e2)));
    assert(flags_of(fallback_models(t1)) =~= flags_of(fallback_models(t2)));
}

} // verus!
