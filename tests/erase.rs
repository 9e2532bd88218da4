use regex::Regex;
use v12::erase::{artifact_path, strip_types};

fn by_regex(text: &str) -> String {
    let re = Regex::new(r":\s*\w+(\[])?|<\w+>").unwrap();
    re.replace_all(text, "").to_string()
}

#[test]
fn untyped_text_is_unchanged() {
    let js = "let x = 1;\nfunction f(a, b) { return a + b; }\n";
    assert_eq!(strip_types(js), js);
}

#[test]
fn empty_text_stays_empty() {
    assert_eq!(strip_types(""), "");
}

#[test]
fn trailing_annotation_is_erased() {
    assert_eq!(strip_types("let x: number = 1;"), "let x = 1;");
}

#[test]
fn array_annotation_is_erased() {
    assert_eq!(strip_types("let xs: number[] = [];"), "let xs = [];");
}

#[test]
fn generic_annotation_is_erased() {
    assert_eq!(strip_types("let m: Map<string> = foo<number>();"), "let m = foo();");
}

#[test]
fn annotation_inside_string_literal_is_erased() {
    assert_eq!(strip_types("let s = \"key: string\";"), "let s = \"key\";");
}

#[test]
fn several_annotations_on_one_line() {
    assert_eq!(
        strip_types("function add(a: number, b: number): number { return a + b; }"),
        "function add(a, b) { return a + b; }"
    );
}

#[test]
fn whitespace_after_colon_of_any_kind() {
    assert_eq!(strip_types("a:\t\n  b c"), "a c");
}

#[test]
fn colon_without_word_is_kept() {
    assert_eq!(strip_types("x ? y : [1]"), "x ? y : [1]");
    assert_eq!(strip_types("a:[]"), "a:[]");
}

#[test]
fn half_bracket_suffix_is_kept() {
    assert_eq!(strip_types("let a: T[0]"), "let a[0]");
}

#[test]
fn nested_generics_lose_the_inner_pair_only() {
    assert_eq!(strip_types("Array<Map<K>>"), "Array<Map>");
}

#[test]
fn comparison_is_not_a_generic() {
    assert_eq!(strip_types("if (a < b && c > d) {}"), "if (a < b && c > d) {}");
    assert_eq!(strip_types("a<b>c"), "ac");
}

#[test]
fn unicode_word_characters_count() {
    assert_eq!(strip_types("let é: ñandú = 1;"), "let é = 1;");
    assert_eq!(strip_types("x:\u{3000}型 y"), "x y");
}

#[test]
fn erasure_agrees_with_the_pattern() {
    let cases = [
        "let x: number = 1;",
        "let xs: number[] = [];",
        "let m: Map<string> = foo<number>();",
        "const o = { a: 1, b: two };",
        "f<T>(x: T): T[] {}",
        "a ::b :: c",
        "<<a>>",
        "x: []",
        "y:  \t z[]]",
        "ünï: çødé<ß>",
    ];
    for c in cases.iter() {
        assert_eq!(strip_types(c), by_regex(c), "input {:?}", c);
    }
}

#[test]
fn artifact_path_appends_js() {
    assert_eq!(artifact_path("script.ts"), "script.ts.js");
    assert_eq!(artifact_path("dir/a.b.ts"), "dir/a.b.ts.js");
    assert_eq!(artifact_path(""), ".js");
}
