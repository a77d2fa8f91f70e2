//! Lookup tests against a fixture store, mirroring the engine's expected
//! end-to-end behavior: each test creates its own store file and checks
//! the exact rows, in the exact order, that a lookup delivers.

use dictcc_cli::translate;
use dictcc_cli::Consumer;
use dictcc_cli::Direction;
use dictcc_cli::Error;

struct Collector {
    found: Vec<(String, String, String)>,
}

impl Consumer for Collector {
    fn consume(&mut self, source_text: &str, dest_text: &str, category: &str) -> Result<(), String> {
        self.found.push((source_text.to_string(), category.to_string(), dest_text.to_string()));
        Ok(())
    }
}

struct FailConsumer;

impl Consumer for FailConsumer {
    fn consume(&mut self, _: &str, _: &str, _: &str) -> Result<(), String> {
        assert!(false);
        Err("unreachable".to_string())
    }
}

fn make_store(path: &str, rows: &[(&str, &str, &str, i64)]) {
    let conn = sqlite::open(path).unwrap();
    conn.execute("DROP TABLE IF EXISTS main_ft").unwrap();
    conn.execute("CREATE TABLE main_ft (term1 TEXT, term2 TEXT, entry_type TEXT, vt_usage INTEGER)")
        .unwrap();
    for (term1, term2, entry_type, usage) in rows {
        let mut stmt = conn.prepare("INSERT INTO main_ft VALUES (?, ?, ?, ?)").unwrap();
        stmt.bind((1, *term1)).unwrap();
        stmt.bind((2, *term2)).unwrap();
        stmt.bind((3, *entry_type)).unwrap();
        stmt.bind((4, *usage)).unwrap();
        stmt.next().unwrap();
    }
}

fn collect_translations_dir(
    db: &str,
    to_translate: &str,
    direction: Direction,
) -> Vec<(String, String, String)> {
    let mut collector = Collector { found: Vec::new() };
    translate(db, to_translate, &direction, &mut collector).unwrap();
    collector.found
}

fn collect_translations(db: &str, to_translate: &str) -> Vec<(String, String, String)> {
    collect_translations_dir(db, to_translate, Direction::Lang2ToLang1)
}

#[test]
fn fail_db_not_found() {
    let db = "./test/does_not_exist.db";
    let mut consumer = FailConsumer;
    let err = translate(db, "", &Direction::Lang2ToLang1, &mut consumer).unwrap_err();
    match err {
        Error::StoreNotFound(_) => {
            assert_eq!(err.message(), "Database ./test/does_not_exist.db not found")
        },
        _ => panic!("Unexpected error: {}", err.message()),
    }
}

#[test]
fn no_results() {
    let db = "/tmp/dictcc_cli_test_no_results.db";
    make_store(
        db,
        &[("Liebe {f}", "love", "noun", 50), ("ekelerregend", "nauseating", "adj", 20)],
    );
    let mut consumer = FailConsumer;
    // We attempt translation of a word that has no translations. We
    // expect no errors.
    translate(db, "awordthatdoesnotexist", &Direction::Lang2ToLang1, &mut consumer).unwrap();
}

#[test]
fn inject_malicious_sql() {
    // By injecting a condition that is always true we would effectively
    // dump the entire table's contents, if the code were prone to SQL
    // injection.
    let db = "/tmp/dictcc_cli_test_inject.db";
    make_store(
        db,
        &[("Liebe {f}", "love", "noun", 50), ("ekelerregend", "nauseating", "adj", 20)],
    );
    let code = "' OR 1=1 OR term2='";
    let found = collect_translations(db, code);
    assert_eq!(found, vec![]);
}

#[test]
fn translate_nauseating() {
    let db = "/tmp/dictcc_cli_test_nauseating.db";
    make_store(
        db,
        &[("ekelerregend", "nauseating", "adj", 20), ("widerlich", "nauseating", "adj", 10)],
    );
    let found = collect_translations(db, "nauseating");
    assert_eq!(
        found,
        vec![
            ("nauseating".to_string(), "adj".to_string(), "ekelerregend".to_string()),
            ("nauseating".to_string(), "adj".to_string(), "widerlich".to_string()),
        ]
    );
}

#[test]
fn translate_surefire() {
    let db = "/tmp/dictcc_cli_test_surefire.db";
    make_store(db, &[("todsicher [ugs.]", "surefire [coll.]", "adj", 10)]);
    let found = collect_translations(db, "surefire");
    assert_eq!(
        found,
        vec![("surefire [coll.]".to_string(), "adj".to_string(), "todsicher [ugs.]".to_string())]
    );
}

#[test]
fn translate_dorky() {
    let db = "/tmp/dictcc_cli_test_dorky.db";
    make_store(
        db,
        &[
            ("bekloppt [ugs.]", "dorky [coll.]", "adj", 30),
            ("idiotisch", "dorky [coll.]", "adj", 20),
            ("deppert [österr.] [südd.]", "dorky [coll.]", "adj", 10),
        ],
    );
    let found = collect_translations(db, "dorky");
    assert_eq!(
        found,
        vec![
            ("dorky [coll.]".to_string(), "adj".to_string(), "bekloppt [ugs.]".to_string()),
            ("dorky [coll.]".to_string(), "adj".to_string(), "idiotisch".to_string()),
            (
                "dorky [coll.]".to_string(),
                "adj".to_string(),
                "deppert [österr.] [südd.]".to_string()
            ),
        ]
    );
}

#[test]
fn translate_subjugate() {
    let db = "/tmp/dictcc_cli_test_subjugate.db";
    make_store(
        db,
        &[
            ("unterwerfen", "to subjugate", "verb", 30),
            ("bezwingen", "to subjugate", "verb", 20),
            ("unterjochen", "to subjugate", "verb", 10),
            ("jdn./etw. knechten [geh.] [pej.] [unterwerfen]", "to subjugate sb./sth.", "verb", 5),
        ],
    );
    let found = collect_translations(db, "subjugate");
    assert_eq!(
        found,
        vec![
            ("to subjugate".to_string(), "verb".to_string(), "unterwerfen".to_string()),
            ("to subjugate".to_string(), "verb".to_string(), "bezwingen".to_string()),
            ("to subjugate".to_string(), "verb".to_string(), "unterjochen".to_string()),
            (
                "to subjugate sb./sth.".to_string(),
                "verb".to_string(),
                "jdn./etw. knechten [geh.] [pej.] [unterwerfen]".to_string()
            ),
        ]
    );
}

#[test]
fn translate_love() {
    let db = "/tmp/dictcc_cli_test_love.db";
    make_store(
        db,
        &[("Liebe {f}", "love", "noun", 50), ("null [beim Tennis]", "love", "", 100)],
    );
    let found = collect_translations(db, "love");
    assert_eq!(
        found,
        vec![
            ("love".to_string(), "noun".to_string(), "Liebe {f}".to_string()),
            ("love".to_string(), "unknown".to_string(), "null [beim Tennis]".to_string()),
        ]
    );
}

#[test]
fn translate_christmas() {
    let db = "/tmp/dictcc_cli_test_christmas.db";
    make_store(db, &[("Weihnachten {n}", "Christmas", "noun", 10)]);
    let found = collect_translations(db, "christmas");
    assert_eq!(
        found,
        vec![("Christmas".to_string(), "noun".to_string(), "Weihnachten {n}".to_string())]
    );
}

#[test]
fn translate_wherewithals() {
    let db = "/tmp/dictcc_cli_test_wherewithals.db";
    make_store(db, &[("Nötiges {n}", "wherewithals {pl}", "noun", 10)]);
    let found = collect_translations(db, "wherewithals");
    assert_eq!(
        found,
        vec![("wherewithals {pl}".to_string(), "noun".to_string(), "Nötiges {n}".to_string())]
    );
}

#[test]
fn translate_statistics() {
    let db = "/tmp/dictcc_cli_test_statistics.db";
    make_store(
        db,
        &[
            (
                "Statistik {f}",
                "statistics {pl} [science that collects and interprets numerical data] [treated as sg.] <stats>",
                "noun",
                20,
            ),
            ("Statistiken {pl}", "statistics", "noun", 10),
        ],
    );
    let found = collect_translations(db, "statistics");
    assert_eq!(
        found,
        vec![
            (
                "statistics {pl} [science that collects and interprets numerical data] [treated as sg.] <stats>"
                    .to_string(),
                "noun".to_string(),
                "Statistik {f}".to_string()
            ),
            ("statistics".to_string(), "noun".to_string(), "Statistiken {pl}".to_string()),
        ]
    );
}

#[test]
fn translate_contents() {
    let db = "/tmp/dictcc_cli_test_contents.db";
    make_store(db, &[("Inhalt {m} <Inh.>", "contents {pl} <cont.>", "noun", 10)]);
    let found = collect_translations(db, "contents");
    assert_eq!(
        found,
        vec![(
            "contents {pl} <cont.>".to_string(),
            "noun".to_string(),
            "Inhalt {m} <Inh.>".to_string()
        )]
    );
}

#[test]
fn translate_sulfur() {
    let db = "/tmp/dictcc_cli_test_sulfur.db";
    make_store(db, &[("Schwefel {m} <S>", "sulfur <S> [Am.]", "noun", 10)]);
    let found = collect_translations(db, "sulfur");
    assert_eq!(
        found,
        vec![("sulfur <S> [Am.]".to_string(), "noun".to_string(), "Schwefel {m} <S>".to_string())]
    );
}

#[test]
fn translate_poor() {
    let db = "/tmp/dictcc_cli_test_poor.db";
    make_store(db, &[("Arme {pl} [arme Leute als Klasse]", "the poor {pl}", "noun", 10)]);
    let found = collect_translations(db, "poor");
    assert_eq!(
        found,
        vec![(
            "the poor {pl}".to_string(),
            "noun".to_string(),
            "Arme {pl} [arme Leute als Klasse]".to_string()
        )]
    );
}

#[test]
fn translate_inhalt() {
    let db = "/tmp/dictcc_cli_test_inhalt.db";
    make_store(db, &[("Inhalt {m} <Inh.>", "contents {pl} <cont.>", "noun", 10)]);
    let found = collect_translations_dir(db, "inhalt", Direction::Lang1ToLang2);
    assert_eq!(
        found,
        vec![(
            "Inhalt {m} <Inh.>".to_string(),
            "noun".to_string(),
            "contents {pl} <cont.>".to_string()
        )]
    );
}
