use ipfs_proxy::listing::{parse_listing, push_escaped, render_listing};
use ipfs_proxy::number::{parse_u32, push_decimal};
use ipfs_proxy::text::{
    chars_of, clone_strings, contains, extend_chars, find_char, has_prefix, rfind_char, slice_of,
    split, string_of,
};

fn chars(s: &str) -> Vec<char> {
    s.chars().collect()
}

fn decimal(n: u64) -> String {
    let mut out = Vec::new();
    push_decimal(&mut out, n);
    out.into_iter().collect()
}

#[test]
fn strings_and_characters_convert_both_ways() {
    assert_eq!(chars_of("héllo/wörld"), chars("héllo/wörld"));
    assert_eq!(chars_of(""), Vec::<char>::new());
    assert_eq!(string_of(&chars("a/b")), "a/b");
    assert_eq!(string_of(&chars_of("日本語")), "日本語");
    assert_eq!(clone_strings(&vec!["a".to_string(), "".to_string()]), vec!["a".to_string(), "".to_string()]);
}

#[test]
fn searching_finds_the_first_and_the_last() {
    assert_eq!(find_char(&chars("a/b/c"), '/'), 1);
    assert_eq!(find_char(&chars("abc"), '/'), 3);
    assert_eq!(find_char(&chars(""), '/'), 0);
    assert_eq!(rfind_char(&chars("a/b/c"), '/'), Some(3));
    assert_eq!(rfind_char(&chars("abc"), '/'), None);
    assert_eq!(rfind_char(&chars("/"), '/'), Some(0));
    assert_eq!(slice_of(&chars("abcdef"), 2, 4), chars("cd"));
    assert_eq!(slice_of(&chars("abcdef"), 6, 6), chars(""));
    let mut v = chars("ab");
    extend_chars(&mut v, &chars("cd"));
    assert_eq!(v, chars("abcd"));
}

#[test]
fn prefixes_and_substrings_are_recognised() {
    assert!(has_prefix(&chars("ipfs://x"), &chars("ipfs://")));
    assert!(has_prefix(&chars("ipfs://"), &chars("ipfs://")));
    assert!(!has_prefix(&chars("ipfs:/"), &chars("ipfs://")));
    assert!(!has_prefix(&chars("xipfs://"), &chars("ipfs://")));
    assert!(has_prefix(&chars("abc"), &chars("")));
    assert!(contains(&chars("https://ipfs.io/ipfs"), &chars("ipfs.io")));
    assert!(contains(&chars("https://ipfs.io/ipfs"), &chars("/ipfs")));
    assert!(contains(&chars("abc"), &chars("abc")));
    assert!(contains(&chars("abc"), &chars("")));
    assert!(contains(&chars(""), &chars("")));
    assert!(!contains(&chars("abc"), &chars("abcd")));
    assert!(!contains(&chars("https://ipfs.io"), &chars("dweb.link")));
    assert!(!contains(&chars("aab"), &chars("aba")));
    assert!(contains(&chars("aaab"), &chars("aab")));
}

#[test]
fn split_keeps_empty_pieces() {
    assert_eq!(split(&chars("a/b/c"), '/'), vec![chars("a"), chars("b"), chars("c")]);
    assert_eq!(split(&chars("a//c/"), '/'), vec![chars("a"), chars(""), chars("c"), chars("")]);
    assert_eq!(split(&chars(""), '/'), vec![chars("")]);
    assert_eq!(split(&chars("/"), '/'), vec![chars(""), chars("")]);
    assert_eq!(split(&chars("abc"), '/'), vec![chars("abc")]);
    let text = "cid/metadata//x/";
    let joined = split(&chars(text), '/').iter().map(|p| p.iter().collect::<String>()).collect::<Vec<_>>().join("/");
    assert_eq!(joined, text);
    let std_pieces: Vec<Vec<char>> = text.split('/').map(chars).collect();
    assert_eq!(split(&chars(text), '/'), std_pieces);
}

#[test]
fn decimal_text_is_what_display_prints() {
    for n in [0u64, 1, 9, 10, 11, 99, 100, 1023, 65_535, 4_294_967_295, u64::MAX] {
        assert_eq!(decimal(n), n.to_string());
    }
    assert_eq!(decimal(1023), "1023");
    let mut out = chars("n=");
    push_decimal(&mut out, 70);
    assert_eq!(out, chars("n=70"));
}

#[test]
fn numbers_are_read_as_the_standard_library_reads_them() {
    for text in [
        "0", "7", "007", "+7", "256", "4294967295", "4294967296", "99999999999999999999999", "",
        "+", "-", "-1", "-0", "++1", "+-1", " 1", "1 ", "1_000", "12a", "a12", "١٢", "0x10", "1.0",
        "+0", "00000000000000000000000000001",
    ] {
        assert_eq!(parse_u32(&chars(text)), text.parse::<u32>().ok(), "{text:?}");
    }
    assert_eq!(parse_u32(&chars("256")), Some(256));
    assert_eq!(parse_u32(&chars("4294967295")), Some(u32::MAX));
    assert_eq!(parse_u32(&chars("4294967296")), None);
}

#[test]
fn listing_lines_give_identifier_and_name() {
    assert_eq!(
        parse_listing("QmA a.json\nQmB b c.png\n"),
        vec![
            ("QmA".to_string(), "a.json".to_string()),
            ("QmB".to_string(), "b c.png".to_string()),
        ]
    );
    assert_eq!(parse_listing(""), vec![]);
    assert_eq!(parse_listing("\n\n"), vec![]);
    assert_eq!(parse_listing("QmA \n"), vec![]);
    assert_eq!(parse_listing(" name"), vec![(String::new(), "name".to_string())]);
    assert_eq!(parse_listing("lonely"), vec![("lonely".to_string(), "lonely".to_string())]);
    assert_eq!(parse_listing("QmA  two"), vec![("QmA".to_string(), " two".to_string())]);
}

#[test]
fn listing_agrees_with_the_standard_library() {
    let text = "QmA 1\nQmB two words\n\nQmC \nsingle\n x\nQmD\ttab\r\n";
    let expected: Vec<(String, String)> = text
        .split('\n')
        .map(|line| {
            let splits = line.splitn(2, ' ').collect::<Vec<&str>>();
            (
                splits.first().map(|t| t.to_string()).unwrap_or_default(),
                splits.last().map(|t| t.to_string()).unwrap_or_default(),
            )
        })
        .filter(|file| !file.1.is_empty())
        .collect();
    assert_eq!(parse_listing(text), expected);
}

#[test]
fn markup_characters_are_escaped() {
    let mut out = vec!['>'];
    push_escaped(&mut out, "a<b>&\"c'/é");
    assert_eq!(out.into_iter().collect::<String>(), ">a&lt;b&gt;&amp;&quot;c&#x27;/é");
}

#[test]
fn a_listing_page_links_every_child() {
    assert_eq!(
        render_listing("cid/<dir>", &vec![("QmA".to_string(), "a&b.png".to_string())]),
        "<!DOCTYPE html>\n<html>\n<head><meta charset=\"utf-8\"><title>Index of cid/&lt;dir&gt;</title></head>\n<body>\n<h1>Index of cid/&lt;dir&gt;</h1>\n<ul>\n<li><a href=\"/ipfs/QmA\">a&amp;b.png</a></li>\n</ul>\n</body>\n</html>\n"
    );
    assert_eq!(
        render_listing("", &vec![]),
        "<!DOCTYPE html>\n<html>\n<head><meta charset=\"utf-8\"><title>Index of </title></head>\n<body>\n<h1>Index of </h1>\n<ul>\n</ul>\n</body>\n</html>\n"
    );
}
