use cargo_fuzz::manifest::{
    collect_targets, is_fuzz_manifest, package_name, parse, Node, ParseError,
};
use cargo_fuzz::nesting::nesting;

fn text(s: &str) -> Node {
    Node::String(String::from(s))
}

fn table(entries: Vec<(&str, Node)>) -> Node {
    Node::Table(entries.into_iter().map(|(k, v)| (String::from(k), v)).collect())
}

const FUZZ_MANIFEST: &str = r#"
[package]
name = "demo-fuzz"
version = "0.0.1"
publish = false

[package.metadata]
cargo-fuzz = true

[dependencies.demo]
path = ".."

[[bin]]
name = "first"
path = "fuzzers/first.rs"

[[bin]]
name = "second"
path = "fuzzers/second.rs"
"#;

#[test]
fn a_document_is_read_into_a_tree() {
    let doc = parse(b"b = 1\na = \"x\"\n[t]\nflag = true\nlist = [1, 2]\n").unwrap();
    let expected = table(vec![
        ("a", text("x")),
        ("b", Node::Integer(1)),
        (
            "t",
            table(vec![
                ("flag", Node::Boolean(true)),
                ("list", Node::Array(vec![Node::Integer(1), Node::Integer(2)])),
            ]),
        ),
    ]);
    assert_eq!(doc, expected);
}

#[test]
fn floats_and_dates_are_kept() {
    let doc = parse(b"f = 1.5\nd = 1979-05-27T07:32:00Z\n").unwrap();
    let expected = table(vec![
        ("d", Node::Datetime(String::from("1979-05-27T07:32:00Z"))),
        ("f", Node::Float(1.5f64.to_bits())),
    ]);
    assert_eq!(doc, expected);
}

#[test]
fn an_empty_document_is_an_empty_table() {
    assert_eq!(parse(b"").unwrap(), Node::Table(Vec::new()));
}

#[test]
fn what_is_no_toml_is_refused() {
    for bytes in [&b"[package"[..], b"a = ", b"a = 1\na = 2\n", b"\xff\xfe", b"a = [1, \"x\"]"] {
        assert!(matches!(parse(bytes), Err(ParseError::Refused(_))));
    }
}

#[test]
fn the_error_tells_what_is_wrong() {
    match parse(b"[package") {
        Err(ParseError::Refused(error)) => assert!(!error.to_string().is_empty()),
        other => panic!("{:?}", other),
    }
}

fn depth(node: &Node) -> usize {
    match node {
        Node::Array(items) => 1 + items.iter().map(depth).max().unwrap_or(0),
        Node::Table(entries) => 1 + entries.iter().map(|e| depth(&e.1)).max().unwrap_or(0),
        _ => 1,
    }
}

#[test]
fn a_document_may_nest() {
    let n = 40;
    let text = format!("a = {}{}\n", "[".repeat(n), "]".repeat(n));
    let doc = parse(text.as_bytes()).unwrap();
    assert_eq!(depth(&doc), n + 1);
    let text = format!("a = {}1{}\n", "{ a = ".repeat(n), " }".repeat(n));
    let doc = parse(text.as_bytes()).unwrap();
    assert_eq!(depth(&doc), n + 2);
    let doc = parse(b"[a.b.c.d.e.f]\ng.h.i = [{ j.k = [1] }]\n").unwrap();
    assert_eq!(depth(&doc), 14);
}

#[test]
fn a_document_that_nests_too_deep_is_not_read() {
    for n in [64usize, 65, 100, 1000, 100000] {
        let text = format!("a = {}{}\n", "[".repeat(n), "]".repeat(n));
        assert!(matches!(parse(text.as_bytes()), Err(ParseError::TooDeep)), "{}", n);
        let text = format!("a = {}1{}\n", "{ a = ".repeat(n), " }".repeat(n));
        assert!(matches!(parse(text.as_bytes()), Err(ParseError::TooDeep)), "{}", n);
        let text = format!("a = {}\n", "[".repeat(n));
        assert!(matches!(parse(text.as_bytes()), Err(ParseError::TooDeep)), "{}", n);
        let text = format!("[{}a]\n", "a.".repeat(n));
        assert!(matches!(parse(text.as_bytes()), Err(ParseError::TooDeep)), "{}", n);
        let text = format!("{}a = 1\n", "a.".repeat(n));
        assert!(matches!(parse(text.as_bytes()), Err(ParseError::TooDeep)), "{}", n);
    }
}

#[test]
fn names_with_many_parts_are_read() {
    let text = format!(
        "[{}a]\n{}b = {}1{}\n",
        "a.".repeat(8),
        "b.".repeat(8),
        "[".repeat(3),
        "]".repeat(3)
    );
    let doc = parse(text.as_bytes()).unwrap();
    assert_eq!(depth(&doc), 1 + 9 + 9 + 3);
    assert_eq!(nesting(text.as_bytes()), 22);
    let text = format!("{}a = 1\n", "a.".repeat(16));
    let doc = parse(text.as_bytes()).unwrap();
    assert_eq!(depth(&doc), 18);
    let text = format!("[{}a]\n{}a = 1\n", "a.".repeat(30), "a.".repeat(31));
    let doc = parse(text.as_bytes()).unwrap();
    assert_eq!(depth(&doc), 64);
    let text = format!("[{}a]\n{}a = 1\n", "a.".repeat(30), "a.".repeat(32));
    assert!(matches!(parse(text.as_bytes()), Err(ParseError::TooDeep)));
}

#[test]
fn numbers_with_dots_are_read() {
    let text = format!("a = [{}1.0]\nb = 1979-05-27T07:32:00.5Z\n", "1.0, ".repeat(200));
    let doc = parse(text.as_bytes()).unwrap();
    assert_eq!(depth(&doc), 3);
    let doc = parse(b"a = { k = 1.5, l = 2.5, m = 3.5, z = 0.5 }\n").unwrap();
    assert_eq!(depth(&doc), 3);
}

#[test]
fn the_deepest_documents_that_are_read() {
    let text = format!("a = {}1{}\n", "[".repeat(62), "]".repeat(62));
    assert_eq!(depth(&parse(text.as_bytes()).unwrap()), 64);
    let text = format!("a = {}1{}\n", "[".repeat(63), "]".repeat(63));
    assert!(matches!(parse(text.as_bytes()), Err(ParseError::TooDeep)));
    let text = format!("a = {}{}\n", "[".repeat(63), "]".repeat(63));
    assert_eq!(depth(&parse(text.as_bytes()).unwrap()), 64);
    let text = format!("a = {}1{}\n", "{ a = ".repeat(62), " }".repeat(62));
    assert_eq!(depth(&parse(text.as_bytes()).unwrap()), 64);
    let text = format!("a = {}1{}\n", "{ a = ".repeat(63), " }".repeat(63));
    assert!(matches!(parse(text.as_bytes()), Err(ParseError::TooDeep)));
    let text = format!("[{}a]\n", "a.".repeat(62));
    assert_eq!(depth(&parse(text.as_bytes()).unwrap()), 64);
    let text = format!("[{}a]\n", "a.".repeat(63));
    assert!(matches!(parse(text.as_bytes()), Err(ParseError::TooDeep)));
}

#[test]
fn brackets_in_strings_and_comments_do_not_nest() {
    let mut text = String::new();
    for i in 0..200 {
        text.push_str(&format!("k{} = \"[[[[ {{{{ \\\" [[\" # [[[[ {{{{ ' \"\n", i));
        text.push_str(&format!("l{} = '[[[[ {{{{ \\' # ]]]]\n", i));
        text.push_str(&format!("m{} = \"\"\"\n[[[[ \"\" [[ \\\"\"\" {{\n\"\"\"\n", i));
        text.push_str(&format!("n{} = {q}\n[[[[ '' {{{{ \\\n{q}\n", i, q = "'''"));
        text.push_str(&format!("o{} = [\"\", '', \"]\", ']']\n", i));
        text.push_str("# ........................................................................\n");
        text.push_str(&format!(
            "p{} = \"..................................................................\"\n",
            i
        ));
    }
    let doc = match parse(text.as_bytes()) {
        Ok(doc) => doc,
        Err(e) => panic!("{:?}", e),
    };
    assert_eq!(depth(&doc), 3);
}

#[test]
fn many_tables_side_by_side_do_not_nest() {
    let mut text = String::from("[package]\nname = \"demo\"\n");
    for i in 0..500 {
        text.push_str(&format!(
            "\n[[bin]]\nname = \"t{}\"\npath = \"fuzzers/t{}.rs\"\n",
            i, i
        ));
        text.push_str(&format!(
            "\n[dependencies.d{}]\nversion = \"1.0.{}\"\nfeatures = [\"a\", \"b\"]\n",
            i, i
        ));
        text.push_str(&format!(
            "\n[target.'cfg(target_os = \"x{}\")'.dependencies]\ny = {{ version = \"0.{}\", features = [\n  \"x\", # ]\n  \"y\",\n] }}\n",
            i, i
        ));
    }
    let doc = match parse(text.as_bytes()) {
        Ok(doc) => doc,
        Err(e) => panic!("{:?}", e),
    };
    assert_eq!(collect_targets(&doc).len(), 500);
}

#[test]
fn what_is_read_is_never_deeper_than_the_bound() {
    let alphabet: &[&str] = &[
        "[", "]", "{", "}", "\"", "'", "\\", "#", "\n", ".", "a", "=", ",", " ", "1", "[[", "]]",
        "\"\"\"", "'''", "a = ", "[a]\n", "\r\n", "\u{e9}", "-", "T", ":", "true", "0x",
        "\u{feff}", "[a.b]\n", "[[a]]\n", "\t", "\r",
    ];
    let mut state: u64 = 0x2545f4914f6cdd1d;
    let mut read = 0;
    for _ in 0..30000 {
        let mut text = String::new();
        state = state.wrapping_mul(6364136223846793005).wrapping_add(1442695040888963407);
        let len = (state >> 33) % 24;
        for _ in 0..len {
            state = state.wrapping_mul(6364136223846793005).wrapping_add(1442695040888963407);
            text.push_str(alphabet[((state >> 33) % alphabet.len() as u64) as usize]);
        }
        if let Ok(doc) = parse(text.as_bytes()) {
            assert!(depth(&doc) <= 64, "{:?}", text);
            assert_eq!(depth(&doc), nesting(text.as_bytes()), "{:?}", text);
            read += 1;
        }
    }
    assert!(read > 0);
}

#[test]
fn a_table_is_looked_up_by_key() {
    let doc = table(vec![("a", Node::Integer(1)), ("b", Node::Integer(2))]);
    assert_eq!(doc.get("a"), Some(&Node::Integer(1)));
    assert_eq!(doc.get("b"), Some(&Node::Integer(2)));
    assert_eq!(doc.get("c"), None);
    assert_eq!(doc.get(""), None);
    assert_eq!(text("a").get("a"), None);
    assert_eq!(Node::Array(vec![Node::Integer(1)]).get("0"), None);
}

#[test]
fn the_first_of_two_equal_keys_is_found() {
    let doc = table(vec![("a", Node::Integer(1)), ("a", Node::Integer(2))]);
    assert_eq!(doc.get("a"), Some(&Node::Integer(1)));
}

#[test]
fn a_fuzz_manifest_is_marked_in_its_metadata() {
    let doc = parse(FUZZ_MANIFEST.as_bytes()).unwrap();
    assert!(is_fuzz_manifest(&doc));
}

#[test]
fn other_manifests_are_no_fuzz_manifests() {
    let plain = parse(b"[package]\nname = \"demo\"\nversion = \"1.0.0\"\n").unwrap();
    assert!(!is_fuzz_manifest(&plain));
    let off = parse(b"[package.metadata]\ncargo-fuzz = false\n").unwrap();
    assert!(!is_fuzz_manifest(&off));
    let text_flag = parse(b"[package.metadata]\ncargo-fuzz = \"true\"\n").unwrap();
    assert!(!is_fuzz_manifest(&text_flag));
    let elsewhere = parse(b"[metadata]\ncargo-fuzz = true\n").unwrap();
    assert!(!is_fuzz_manifest(&elsewhere));
    let flat = parse(b"package = 1\n").unwrap();
    assert!(!is_fuzz_manifest(&flat));
    let no_table = parse(b"[package]\nmetadata = \"cargo-fuzz\"\n").unwrap();
    assert!(!is_fuzz_manifest(&no_table));
    assert!(!is_fuzz_manifest(&Node::Table(Vec::new())));
    assert!(!is_fuzz_manifest(&Node::Boolean(true)));
}

#[test]
fn a_hand_made_fuzz_manifest_is_one() {
    let doc = table(vec![(
        "package",
        table(vec![("metadata", table(vec![("cargo-fuzz", Node::Boolean(true))]))]),
    )]);
    assert!(is_fuzz_manifest(&doc));
}

#[test]
fn targets_are_the_names_of_the_binaries() {
    let doc = parse(FUZZ_MANIFEST.as_bytes()).unwrap();
    assert_eq!(collect_targets(&doc), vec![String::from("first"), String::from("second")]);
}

#[test]
fn binaries_without_a_name_are_passed_over() {
    let doc = table(vec![(
        "bin",
        Node::Array(vec![
            table(vec![("name", text("one"))]),
            table(vec![("path", text("fuzzers/none.rs"))]),
            table(vec![("name", Node::Integer(3))]),
            text("loose"),
            table(vec![("name", text("two")), ("path", text("x.rs"))]),
            table(vec![("name", text("one"))]),
        ]),
    )]);
    assert_eq!(
        collect_targets(&doc),
        vec![String::from("one"), String::from("two"), String::from("one")]
    );
}

#[test]
fn a_manifest_without_binaries_has_no_targets() {
    assert!(collect_targets(&Node::Table(Vec::new())).is_empty());
    assert!(collect_targets(&table(vec![("bin", text("first"))])).is_empty());
    assert!(collect_targets(&table(vec![("bin", table(vec![("name", text("first"))]))])).is_empty());
    assert!(collect_targets(&table(vec![("bin", Node::Array(Vec::new()))])).is_empty());
    assert!(collect_targets(&Node::Integer(1)).is_empty());
}

#[test]
fn a_package_has_its_name() {
    let doc = parse(FUZZ_MANIFEST.as_bytes()).unwrap();
    assert_eq!(package_name(&doc), Some(String::from("demo-fuzz")));
}

#[test]
fn a_manifest_may_name_no_package() {
    assert_eq!(package_name(&Node::Table(Vec::new())), None);
    assert_eq!(package_name(&parse(b"[package]\nversion = \"1\"\n").unwrap()), None);
    assert_eq!(package_name(&parse(b"[package]\nname = 7\n").unwrap()), None);
    assert_eq!(package_name(&parse(b"package = \"demo\"\n").unwrap()), None);
    assert_eq!(package_name(&parse(b"name = \"demo\"\n").unwrap()), None);
}

fn nested(levels: usize, state: &mut u64) -> String {
    let noise: &[&str] = &[
        "\"]]]\"",
        "']}'",
        "\"\\\"]\"",
        "\"\\\\\"",
        "\"\"\"]\n]\"\"]\\\"\"\"]\"\"\"",
        "'''}\n]'']'''",
        "\"\"",
        "''",
        "\"#]\"",
        "'\"]'",
        "\"']\"",
    ];
    let comments: &[&str] = &["", " ", "\n", " # ]]] \" ' }}\n", "\r\n", "#\n"];
    let mut text = String::from("1");
    for level in 0..levels {
        *state = state.wrapping_mul(6364136223846793005).wrapping_add(1442695040888963407);
        let pick = (*state >> 33) as usize;
        if level % 2 == 0 {
            let before = comments[pick % comments.len()];
            let after = comments[(pick / 7) % comments.len()];
            text = format!("[{}{}{}]", before, text, after);
        } else {
            let first = noise[pick % noise.len()];
            let last = noise[(pick / 11) % noise.len()];
            text = format!("{{ s = {}, t = {}, u = {} }}", first, text, last);
        }
    }
    format!("a = {}\n", text)
}

#[test]
fn strings_and_comments_hide_no_level() {
    let mut state: u64 = 0x9e3779b97f4a7c15;
    for round in 0..40 {
        for levels in [1usize, 2, 3, 10, 33, 58, 59, 60, 61, 62] {
            let text = nested(levels, &mut state);
            match parse(text.as_bytes()) {
                Ok(doc) => {
                    assert_eq!(depth(&doc), levels + 2, "{} {}", round, levels);
                    assert_eq!(nesting(text.as_bytes()), levels + 2, "{} {}", round, levels);
                }
                Err(e) => panic!("{} {} {:?} {:?}", round, levels, e, text),
            }
        }
        for levels in [63usize, 64, 65, 80, 200] {
            let text = nested(levels, &mut state);
            assert!(matches!(parse(text.as_bytes()), Err(ParseError::TooDeep)), "{}", levels);
        }
    }
}

struct Dice(u64);

impl Dice {
    fn roll(&mut self, sides: usize) -> usize {
        self.0 = self.0.wrapping_mul(6364136223846793005).wrapping_add(1442695040888963407);
        ((self.0 >> 33) % sides as u64) as usize
    }

    fn text(&mut self) -> String {
        let basic: &[&str] = &[
            "]", "[", "}", "{", "\\\"", "\\\\", "'", "#", ".", " ", "x", "\\t", "\\u00e9", "=", ",",
        ];
        let literal: &[&str] = &["]", "[", "}", "{", "\"", "\\", "#", ".", " ", "x", "=", ","];
        let block: &[&str] = &[
            "]", "[", "}", "{", "\\\"", "\\\\", "'", "#", ".", " ", "x", "\n", "\"", "\"\"", "\r\n",
            "\\\n  ", "''", "'''",
        ];
        let literal_block: &[&str] = &[
            "]", "[", "}", "{", "\"", "\\", "#", ".", " ", "x", "\n", "'", "''", "\"\"\"", "\r\n",
        ];
        let (open, close, pieces) = match self.roll(4) {
            0 => ("\"", "\"", basic),
            1 => ("'", "'", literal),
            2 => ("\"\"\"", "\"\"\"", block),
            _ => ("'''", "'''", literal_block),
        };
        let mut text = String::from(open);
        for _ in 0..self.roll(6) {
            text.push_str(pieces[self.roll(pieces.len())]);
        }
        // a quote right before the closing quotes would join them
        while text.len() > open.len() && (text.ends_with('"') || text.ends_with('\'')) {
            text.pop();
        }
        if text.ends_with('\\') && !open.starts_with('\'') {
            text.push('\\');
        }
        text.push_str(close);
        text
    }

    fn gap(&mut self) -> &'static str {
        let gaps: &[&str] = &["", " ", "\n", " # ] } \" ' [ {\n", "\r\n", "\t", "#\n  "];
        gaps[self.roll(gaps.len())]
    }

    fn key(&mut self) -> String {
        let keys: &[&str] = &["a", "b-c", "\"]\"", "'['", "\"a.b\"", "d . e", "f.\"}\".g", "'#'"];
        String::from(keys[self.roll(keys.len())])
    }

    fn table(&mut self, levels: usize) -> String {
        let mut text = String::from("{");
        let fields = 1 + self.roll(3);
        for i in 0..fields {
            if i > 0 {
                text.push_str(", ");
            }
            text.push_str(&format!("k{}.{} = {}", i, self.key(), self.value(levels)));
        }
        text.push_str(" }");
        text
    }

    // what a value is made of decides what may stand beside it in an array
    fn value_of(&mut self, levels: usize, kind: usize) -> String {
        match kind {
            0 => String::from("1"),
            1 => self.text(),
            2 => self.table(levels.saturating_sub(1)),
            _ => {
                let inner = if levels <= 1 { self.roll(2) } else { self.roll(4) };
                let mut text = String::from("[");
                text.push_str(self.gap());
                for i in 0..self.roll(3) {
                    if i > 0 {
                        text.push_str(",");
                        text.push_str(self.gap());
                    }
                    let item = self.value_of(levels.saturating_sub(1), inner);
                    text.push_str(&item);
                    text.push_str(self.gap());
                }
                text.push_str("]");
                text
            }
        }
    }

    fn value(&mut self, levels: usize) -> String {
        let kind = if levels == 0 { self.roll(2) } else { self.roll(4) };
        self.value_of(levels, kind)
    }
}

#[test]
fn no_document_hides_its_depth() {
    let mut dice = Dice(0x853c49e6748fea9b);
    let mut read = 0;
    let mut deep = 0;
    for round in 0..4000 {
        let value = dice.value(5);
        let plain = format!("a = {}\n", value);
        let found = match parse(plain.as_bytes()) {
            Ok(doc) => depth(&doc),
            Err(ParseError::Refused(_)) => continue,
            Err(ParseError::TooDeep) => continue,
        };
        read += 1;
        if found >= 5 {
            deep += 1;
        }
        assert!(found <= 64);
        assert_eq!(nesting(plain.as_bytes()), found, "{} {:?}", round, plain);
        // the same value with so many arrays around it that it lies too deep
        let more = 66 - found;
        let wrapped = format!("a = {}{}{}\n", "[".repeat(more), value, "]".repeat(more));
        match parse(wrapped.as_bytes()) {
            Ok(doc) => panic!("{} {} {:?}", round, depth(&doc), wrapped),
            Err(_) => {}
        }
        // and with no more arrays around it than the bound allows for sure
        let fewer = 3;
        let wrapped = format!("a = {}{}{}\n", "[".repeat(fewer), value, "]".repeat(fewer));
        match parse(wrapped.as_bytes()) {
            Ok(doc) => assert_eq!(depth(&doc), found + fewer, "{}", round),
            Err(ParseError::Refused(e)) => panic!("{} {:?} {:?}", round, e, wrapped),
            Err(ParseError::TooDeep) => {}
        }
    }
    assert!(read > 1000, "{}", read);
    assert!(deep > 100, "{}", deep);
}

#[test]
fn headers_hide_no_level() {
    let names: &[&str] = &["a", "b", "c", "\"a\"", "'b.c'", "a . b", "a.b", "b.c.a", "c.a"];
    let values: &[&str] = &[
        "1", "1.5", "\"x.y\"", "[1.5, 2.5]", "[[1], []]", "{ a = 1 }", "{ a.b = 1.5, c = [] }",
        "[{ a = 1 }, { b.c = [1] }]", "{}", "[]", "1979-05-27T07:32:00.5Z",
    ];
    let mut dice = Dice(0xda942042e4dd58b5);
    let mut read = 0;
    let mut exact = 0;
    for round in 0..20000 {
        let mut text = String::new();
        for _ in 0..(1 + dice.roll(6)) {
            let name = names[dice.roll(names.len())];
            match dice.roll(4) {
                0 => text.push_str(&format!("[{}]\n", name)),
                1 => text.push_str(&format!("[[{}]] # [x.y.z]\n", name)),
                _ => {
                    let value = values[dice.roll(values.len())];
                    text.push_str(&format!("{} = {}\n", name, value));
                }
            }
        }
        if let Ok(doc) = parse(text.as_bytes()) {
            let found = depth(&doc);
            let counted = nesting(text.as_bytes());
            assert!(found <= counted, "{} {} {} {:?}", round, found, counted, text);
            assert!(counted <= found + 2, "{} {} {} {:?}", round, found, counted, text);
            assert_eq!(found, counted, "{} {:?}", round, text);
            read += 1;
            if found == counted {
                exact += 1;
            }
        }
    }
    assert!(read > 2000, "{}", read);
    assert!(exact * 10 > read * 9, "{} {}", exact, read);
}

#[test]
fn a_mark_before_the_document_changes_nothing() {
    let documents: &[&str] = &[
        "",
        "[package]\nname = \"demo\"\n",
        "[a.b]\n",
        "[a.b]",
        "[[a.b]]\nc = 1\n",
        "a.b.c = [1]\n",
        " [a.b]\n",
        "\n[a.b]\nc.d = { e = [1.5] }\n",
        "# [a.b]\n",
        "\"a\".b = 1\n",
    ];
    for text in documents {
        let plain = parse(text.as_bytes()).unwrap();
        let marked = format!("\u{feff}{}", text);
        let doc = parse(marked.as_bytes()).unwrap();
        assert_eq!(doc, plain, "{:?}", text);
        assert_eq!(nesting(marked.as_bytes()), depth(&doc), "{:?}", text);
        assert_eq!(nesting(text.as_bytes()), depth(&doc), "{:?}", text);
    }
    let deep = format!("\u{feff}[{}a]\n", "a.".repeat(70));
    assert!(matches!(parse(deep.as_bytes()), Err(ParseError::TooDeep)));
    let deep = format!("\u{feff}[{}a]\n", "a.".repeat(50000));
    assert!(matches!(parse(deep.as_bytes()), Err(ParseError::TooDeep)));
    let twice = "\u{feff}\u{feff}[a.b]\n";
    assert!(matches!(parse(twice.as_bytes()), Err(ParseError::Refused(_))));
}

fn document(dice: &mut Dice) -> String {
    let names: &[&str] = &[
        "a", "b", "c", "\"a\"", "'b.c'", "a . b", "a.b", "b.c.a", "c.a", "a.b.c",
        "\"\\u0061\".b", "a.'b'", "\"a b\"", "b.\"c\"",
    ];
    let ends: &[&str] = &["\n", "\r\n", " # ] [ \" '\n", "\n\n", "  \n"];
    let mut text = String::new();
    if dice.roll(4) == 0 {
        text.push('\u{feff}');
    }
    for _ in 0..(1 + dice.roll(6)) {
        let name = names[dice.roll(names.len())];
        let end = ends[dice.roll(ends.len())];
        match dice.roll(5) {
            0 => text.push_str(&format!("[{}]{}", name, end)),
            1 => text.push_str(&format!("[[{}]]{}", name, end)),
            _ => {
                let value = dice.value(3);
                text.push_str(&format!("{} = {}{}", name, value, end));
            }
        }
    }
    text
}

fn held_against_the_tree(text: &str) -> bool {
    match parse(text.as_bytes()) {
        Ok(doc) => {
            let found = depth(&doc);
            let counted = nesting(text.as_bytes());
            assert!(found <= counted, "{} {} {:?}", found, counted, text);
            assert!(found <= 64, "{:?}", text);
            if !text.contains('\\') {
                assert_eq!(found, counted, "{:?}", text);
            }
            true
        }
        Err(_) => false,
    }
}

#[test]
fn whole_documents_hide_no_level() {
    let mut dice = Dice(0x1f83d9abfb41bd6b);
    let mut read = 0;
    for _ in 0..100000 {
        let text = document(&mut dice);
        if held_against_the_tree(&text) {
            read += 1;
        }
    }
    assert!(read > 2000, "{}", read);
}

fn change_documents(seed: u64, rounds: usize, changes: usize) -> usize {
    let triple = "'".repeat(3);
    let pieces: &[&str] = &[
        "[", "]", "{", "}", "\"", "'", "\\", "#", "\n", ".", "a", "b", "=", ",", " ", "1",
        "\u{feff}", "\r", "\t", "\"\"\"", &triple, "[[", "]]", "x = ", "\r\n", "\u{e9}", "-",
        "+", ":", "T", "e", "_", "0", "true", "\u{0}", "\u{7f}", "\u{c}",
    ];
    let mut dice = Dice(seed);
    let mut read = 0;
    for _ in 0..rounds {
        let mut text = document(&mut dice);
        for _ in 0..(1 + dice.roll(changes)) {
            let mut at = dice.roll(text.len() + 1);
            while !text.is_char_boundary(at) {
                at -= 1;
            }
            match dice.roll(3) {
                0 => text.insert_str(at, pieces[dice.roll(pieces.len())]),
                1 => {
                    if at < text.len() {
                        text.remove(at);
                    }
                }
                _ => {
                    if at < text.len() {
                        text.remove(at);
                    }
                    text.insert_str(at, pieces[dice.roll(pieces.len())]);
                }
            }
        }
        if held_against_the_tree(&text) {
            read += 1;
        }
    }
    read
}

#[test]
fn changed_documents_hide_no_level() {
    assert!(change_documents(0x5be0cd19137e2179, 100000, 3) > 5000);
}

#[test]
fn much_changed_documents_hide_no_level() {
    assert!(change_documents(0x243f6a8885a308d3, 100000, 8) > 1000);
}

#[test]
fn once_changed_documents_hide_no_level() {
    assert!(change_documents(0xb7e151628aed2a6a, 100000, 1) > 10000);
}
