//! The lookup entry point and the result streamer.
//!
//! A lookup opens the store, generates the pattern groups for the term,
//! composes and prepares the query, binds every pattern text positionally
//! — primary group first, fallback group after it, each in construction
//! order — and then streams the matching rows: each row's source and
//! destination fields are decoded as text, normalized, and handed to the
//! consumer together with the resolved category. A consumer failure or an
//! undecodable field stops the stream at once; zero rows is a success.

use vstd::prelude::*;
use vstd::string::*;
use crate::error::Error;
use crate::normalize::normalize;
use crate::pattern::{generate_patterns, models_of, texts_of, Pattern};
use crate::query::{compose_query, Config, Direction};
use crate::store::{
    bind_text,
    open_store,
    prepare_statement,
    read_cell,
    step,
    store_file_exists,
    Cell,
};

verus! {

/// The consumer of match results: one synchronous method, invoked once
/// per row in ranked order. Returning an error halts the stream; the
/// message is handed back to the lookup's caller as a consumer error.
pub trait Consumer {
    /// Receives one match result: normalized source text, normalized
    /// destination text, and the resolved category.
    fn consume(&mut self, source_text: &str, dest_text: &str, category: &str) -> Result<(), String>;
}

/// Decodes the three text fields of a fetched row: the source text, the
/// destination text and the resolved category, in that column order.
/// Succeeds exactly when all three fields are text; otherwise the row is
/// malformed at the first non-text column.
pub fn decode_row(c0: Cell, c1: Cell, c2: Cell) -> (r: Result<(String, String, String), Error>)
    ensures
        r is Ok <==> (c0 is Text && c1 is Text && c2 is Text),
        r matches Ok(t) ==> {
            &&& c0 matches Cell::Text(s0) && t.0 == s0
            &&& c1 matches Cell::Text(s1) && t.1 == s1
            &&& c2 matches Cell::Text(s2) && t.2 == s2
        },
        !(c0 is Text) ==> r == Err::<(String, String, String), Error>(Error::MalformedRow(0)),
        c0 is Text && !(c1 is Text) ==> r == Err::<(String, String, String), Error>(
            Error::MalformedRow(1),
        ),
        c0 is Text && c1 is Text && !(c2 is Text) ==> r == Err::<(String, String, String), Error>(
            Error::MalformedRow(2),
        ),
{
    let s0 = match c0 {
        Cell::Text(s) => s,
        _ => { return Err(Error::MalformedRow(0)) },
    };
    let s1 = match c1 {
        Cell::Text(s) => s,
        _ => { return Err(Error::MalformedRow(1)) },
    };
    let s2 = match c2 {
        Cell::Text(s) => s,
        _ => { return Err(Error::MalformedRow(2)) },
    };
    Ok((s0, s1, s2))
}

/// Binds every parameter text at its 1-based position, in the order the
/// texts stand in the vector — the exact order in which the compositor
/// laid out the `?` placeholders.
fn bind_params<'l>(stmt: &mut sqlite::Statement<'l>, params: &Vec<String>) -> (r: Result<
    (),
    Error,
>)
    ensures
        r matches Err(e) ==> e is StoreError,
{
    let mut i: usize = 0;
    while i < params.len()
        invariant
            i <= params@.len(),
        decreases params@.len() - i,
    {
        match bind_text(stmt, i + 1, params[i].as_str()) {
            Ok(()) => {},
            Err(e) => { return Err(e) },
        }
        i = i + 1;
    }
    Ok(())
}

/// Collects the pattern texts of the two groups into the parameter list,
/// primary group first, fallback group after it, each in construction
/// order.
fn collect_params(primary: &Vec<Pattern>, fallback: &Vec<Pattern>) -> (r: Vec<String>)
    ensures
        r@.map_values(|s: String| s@) == texts_of(models_of(primary@)) + texts_of(
            models_of(fallback@),
        ),
{
    let ghost goal = texts_of(models_of(primary@)) + texts_of(models_of(fallback@));
    let mut params: Vec<String> = Vec::new();
    let mut i: usize = 0;
    while i < primary.len()
        invariant
            i <= primary@.len(),
            params@.map_values(|s: String| s@) =~= texts_of(models_of(primary@)).take(i as int),
        decreases primary@.len() - i,
    {
        params.push(primary[i].text.clone());
        proof {
            let ts = texts_of(models_of(primary@));
            assert(ts.take(i + 1).drop_last() =~= ts.take(i as int));
        }
        i = i + 1;
    }
    proof {
        let ts = texts_of(models_of(primary@));
        assert(ts.take(primary@.len() as int) =~= ts);
    }
    let mut j: usize = 0;
    while j < fallback.len()
        invariant
            j <= fallback@.len(),
            params@.map_values(|s: String| s@) =~= texts_of(models_of(primary@)) + texts_of(
                models_of(fallback@),
            ).take(j as int),
        decreases fallback@.len() - j,
    {
        params.push(fallback[j].text.clone());
        proof {
            let ts = texts_of(models_of(fallback@));
            assert(ts.take(j + 1).drop_last() =~= ts.take(j as int));
            assert(texts_of(models_of(primary@)) + ts.take(j + 1) =~= (texts_of(
                models_of(primary@),
            ) + ts.take(j as int)).push(ts[j as int]));
        }
        j = j + 1;
    }
    proof {
        let ts = texts_of(models_of(fallback@));
        assert(ts.take(fallback@.len() as int) =~= ts);
        assert(params@.map_values(|s: String| s@) =~= goal);
    }
    params
}

/// Streams the statement's rows to the consumer in store-delivered order:
/// per row, the source and destination fields are decoded and normalized,
/// the category passed through, and the consumer invoked once. The first
/// failure — a store error, an undecodable field, or a consumer error —
/// aborts the remaining rows. Running out of rows, zero included, is a
/// success.
fn stream_rows<'l, C: Consumer>(stmt: &mut sqlite::Statement<'l>, consumer: &mut C) -> (r: Result<
    (),
    Error,
>)
    ensures
        r matches Err(e) ==> !(e is StoreNotFound),
{
    loop
        decreases crate::store::rows_remaining(*stmt),
    {
        let more = match step(stmt) {
            Ok(b) => b,
            Err(e) => { return Err(e) },
        };
        if !more {
            return Ok(());
        }
        let c0 = match read_cell(stmt, 0) {
            Ok(c) => c,
            Err(e) => { return Err(e) },
        };
        let c1 = match read_cell(stmt, 1) {
            Ok(c) => c,
            Err(e) => { return Err(e) },
        };
        let c2 = match read_cell(stmt, 2) {
            Ok(c) => c,
            Err(e) => { return Err(e) },
        };
        let (src_raw, dst_raw, category) = match decode_row(c0, c1, c2) {
            Ok(t) => t,
            Err(e) => { return Err(e) },
        };
        let src_text = normalize(src_raw.as_str());
        let dst_text = normalize(dst_raw.as_str());
        match consumer.consume(src_text.as_str(), dst_text.as_str(), category.as_str()) {
            Ok(()) => {},
            Err(m) => { return Err(Error::ConsumerError(m)) },
        }
    }
}

/// Looks a term up with an explicit store schema and extra-pattern list.
/// The store path must denote an existing store: otherwise the lookup
/// reports it not found, names that path, and touches nothing.
pub fn translate_with_config<C: Consumer>(
    store_path: &str,
    term: &str,
    direction: &Direction,
    config: &Config,
    consumer: &mut C,
) -> (r: Result<(), Error>)
    ensures
        r matches Err(e) ==> (e matches Error::StoreNotFound(p) ==> p@ == store_path@),
{
    if !store_file_exists(store_path) {
        return Err(Error::StoreNotFound(String::from_str(store_path)));
    }
    let conn = match open_store(store_path) {
        Ok(c) => c,
        Err(e) => { return Err(e) },
    };
    let (primary, fallback) = generate_patterns(term, &config.extra_patterns);
    let sql = compose_query(config, direction, &primary, &fallback);
    let mut stmt = match prepare_statement(&conn, sql.as_str()) {
        Ok(s) => s,
        Err(e) => { return Err(e) },
    };
    let params = collect_params(&primary, &fallback);
    match bind_params(&mut stmt, &params) {
        Ok(()) => {},
        Err(e) => { return Err(e) },
    }
    stream_rows(&mut stmt, consumer)
}

/// The lookup entry point: matches the term against the store at the path
/// in the given direction and streams every matching entry — exact
/// matches merged with annotation and infinitive variants — to the
/// consumer, ranked by resolved category, then usage, then source text.
pub fn translate<C: Consumer>(
    store_path: &str,
    term: &str,
    direction: &Direction,
    consumer: &mut C,
) -> (r: Result<(), Error>)
    ensures
        r matches Err(e) ==> (e matches Error::StoreNotFound(p) ==> p@ == store_path@),
{
    let config = Config::dictcc();
    translate_with_config(store_path, term, direction, &config, consumer)
}

} // verus!
