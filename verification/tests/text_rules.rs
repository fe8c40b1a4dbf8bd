use cloudman_rs::text::{
    cell_text, chars_of, eq_ignore_ascii_case, lex_compare, pad_left, pad_right, split_chars,
    str_contains, string_of,
};

#[test]
fn ascii_case_is_ignored() {
    assert!(eq_ignore_ascii_case("Name", "name"));
    assert!(eq_ignore_ascii_case("NAME", "nAmE"));
    assert!(!eq_ignore_ascii_case("Name", "names"));
    assert!(!eq_ignore_ascii_case("Ä", "ä"));
    assert!(eq_ignore_ascii_case("", ""));
}

#[test]
fn substring_search() {
    assert!(str_contains("web-server-1", "server"));
    assert!(str_contains("web", ""));
    assert!(str_contains("", ""));
    assert!(!str_contains("web", "Web"));
    assert!(!str_contains("we", "web"));
    assert!(str_contains("aab", "ab"));
}

#[test]
fn padding_and_cells() {
    assert_eq!(pad_right("ab", 4), "ab  ");
    assert_eq!(pad_right("abcdef", 4), "abcdef");
    assert_eq!(pad_left("ab", 4), "  ab");
    assert_eq!(pad_left("abcdef", 4), "abcdef");
    assert_eq!(cell_text("abc", 5), "abc   ");
    assert_eq!(cell_text("abcdef", 3), "abc ");
    assert_eq!(cell_text("abc", 0), " ");
    assert_eq!(cell_text("äöü", 2), "äö ");
    assert_eq!(cell_text("instance-id", 19), format!("{:.19} ", format!("{:<19}", "instance-id")));
}

#[test]
fn splitting_at_commas() {
    assert_eq!(split_chars("a,b", ','), vec!["a", "b"]);
    assert_eq!(split_chars("a,,b", ','), vec!["a", "", "b"]);
    assert_eq!(split_chars("", ','), vec![""]);
    assert_eq!(split_chars("a,", ','), vec!["a", ""]);
    assert_eq!(split_chars("eu-west-1", ','), vec!["eu-west-1"]);
}

#[test]
fn lexicographic_order() {
    assert_eq!(lex_compare("a", "b"), -1);
    assert_eq!(lex_compare("b", "a"), 1);
    assert_eq!(lex_compare("ab", "ab"), 0);
    assert_eq!(lex_compare("ab", "abc"), -1);
    assert_eq!(lex_compare("", ""), 0);
    assert_eq!(lex_compare("Z", "a"), -1);
}

#[test]
fn chars_round_trip() {
    let v = chars_of("héllo");
    assert_eq!(v, vec!['h', 'é', 'l', 'l', 'o']);
    assert_eq!(string_of(&v), "héllo");
}

#[test]
fn string_order_is_transitive() {
    let words = ["", "a", "ab", "abc", "b", "Z", "äb"];
    for x in words.iter() {
        for y in words.iter() {
            for z in words.iter() {
                if lex_compare(x, y) <= 0 && lex_compare(y, z) <= 0 {
                    assert!(lex_compare(x, z) <= 0);
                }
                if lex_compare(x, y) < 0 && lex_compare(y, z) < 0 {
                    assert!(lex_compare(x, z) < 0);
                }
            }
        }
    }
    assert_eq!(lex_compare("a", "äb"), -1);
}
