//! Reading the output of `ipfs ls`: one child of a directory per line.

use vstd::prelude::*;
use crate::text::{
    chars_of, extend_chars, find_char, index_of, slice_of, split, split_on, string_of, views,
};

verus! {

/// The content identifier and the name that a line gives: what stands before
/// and after its first blank. A line without a blank counts as both.
pub open spec fn listing_entry(line: Seq<char>) -> (Seq<char>, Seq<char>) {
    let blank = index_of(line, ' ');
    if blank < line.len() {
        (line.take(blank), line.skip(blank + 1))
    } else {
        (line, line)
    }
}

/// The entries of the lines that give a name, in order.
pub open spec fn listing_entries(lines: Seq<Seq<char>>) -> Seq<(Seq<char>, Seq<char>)>
    decreases lines.len(),
{
    if lines.len() == 0 {
        Seq::empty()
    } else {
        let before = listing_entries(lines.drop_last());
        let entry = listing_entry(lines.last());
        if entry.1.len() == 0 {
            before
        } else {
            before.push(entry)
        }
    }
}

/// The children that the output of `ipfs ls` names.
pub open spec fn listed_files(output: Seq<char>) -> Seq<(Seq<char>, Seq<char>)> {
    listing_entries(split_on(output, '\n'))
}

/// The views of a list of pairs of strings.
pub open spec fn pair_views(files: Seq<(String, String)>) -> Seq<(Seq<char>, Seq<char>)> {
    Seq::new(files.len(), |i: int| (files[i].0@, files[i].1@))
}

/// Reads the output of `ipfs ls` into pairs of content identifier and name.
pub fn parse_listing(output: &str) -> (files: Vec<(String, String)>)
    ensures
        pair_views(files@) == listed_files(output@),
{
    let text = chars_of(output);
    let lines = split(&text, '\n');
    let mut files: Vec<(String, String)> = Vec::new();
    let mut i: usize = 0;
    while i < lines.len()
        invariant
            i <= lines.len(),
            pair_views(files@) == listing_entries(views(lines@).take(i as int)),
        decreases lines.len() - i,
    {
        let line = &lines[i];
        proof {
            let all = views(lines@);
            assert(all.take(i + 1).drop_last() =~= all.take(i as int));
            assert(all.take(i + 1).last() == line@);
            crate::text::lemma_index_of_bounds(line@, ' ');
        }
        let blank = find_char(line, ' ');
        let (cid, name) = if blank < line.len() {
            (slice_of(line, 0, blank), slice_of(line, blank + 1, line.len()))
        } else {
            (slice_of(line, 0, line.len()), slice_of(line, 0, line.len()))
        };
        proof {
            assert(line@.subrange(0, line@.len() as int) =~= line@);
            assert((cid@, name@) == listing_entry(line@));
        }
        if name.len() > 0 {
            let ghost before = pair_views(files@);
            files.push((string_of(&cid), string_of(&name)));
            proof {
                assert(pair_views(files@) =~= before.push((cid@, name@)));
            }
        }
        i += 1;
    }
    proof {
        assert(views(lines@).take(lines.len() as int) =~= views(lines@));
    }
    files
}

/// What a character becomes inside HTML: the five characters that HTML reads
/// as markup become character references, every other stays.
pub open spec fn escaped_char(c: char) -> Seq<char> {
    if c == '<' {
        "&lt;"@
    } else if c == '>' {
        "&gt;"@
    } else if c == '&' {
        "&amp;"@
    } else if c == '"' {
        "&quot;"@
    } else if c == '\'' {
        "&#x27;"@
    } else {
        seq![c]
    }
}

/// A text as it stands inside HTML.
pub open spec fn escaped(text: Seq<char>) -> Seq<char>
    decreases text.len(),
{
    if text.len() == 0 {
        Seq::empty()
    } else {
        escaped(text.drop_last()) + escaped_char(text.last())
    }
}

/// The list items of a directory listing: one link per child, to the
/// child's own content identifier, in order.
pub open spec fn listing_items(files: Seq<(Seq<char>, Seq<char>)>) -> Seq<char>
    decreases files.len(),
{
    if files.len() == 0 {
        Seq::empty()
    } else {
        listing_items(files.drop_last()) + "<li><a href=\"/ipfs/"@ + escaped(files.last().0)
            + "\">"@ + escaped(files.last().1) + "</a></li>\n"@
    }
}

/// The HTML page that lists the children of the directory `base_uri`.
pub open spec fn listing_page(base_uri: Seq<char>, files: Seq<(Seq<char>, Seq<char>)>) -> Seq<
    char,
> {
    "<!DOCTYPE html>\n<html>\n<head><meta charset=\"utf-8\"><title>Index of "@ + escaped(base_uri)
        + "</title></head>\n<body>\n<h1>Index of "@ + escaped(base_uri) + "</h1>\n<ul>\n"@
        + listing_items(files) + "</ul>\n</body>\n</html>\n"@
}

/// Appends `text`, as it stands inside HTML, to `out`.
pub fn push_escaped(out: &mut Vec<char>, text: &str)
    ensures
        final(out)@ == old(out)@ + escaped(text@),
{
    let chars = chars_of(text);
    let mut i: usize = 0;
    while i < chars.len()
        invariant
            i <= chars.len(),
            chars@ == text@,
            out@ == old(out)@ + escaped(chars@.take(i as int)),
        decreases chars.len() - i,
    {
        let c = chars[i];
        let ghost before = out@;
        proof {
            assert(chars@.take(i + 1).drop_last() =~= chars@.take(i as int));
            assert(chars@.take(i + 1).last() == c);
        }
        if c == '<' {
            extend_chars(out, &chars_of("&lt;"));
        } else if c == '>' {
            extend_chars(out, &chars_of("&gt;"));
        } else if c == '&' {
            extend_chars(out, &chars_of("&amp;"));
        } else if c == '"' {
            extend_chars(out, &chars_of("&quot;"));
        } else if c == '\'' {
            extend_chars(out, &chars_of("&#x27;"));
        } else {
            out.push(c);
        }
        proof {
            assert(out@ =~= before + escaped_char(c));
            assert(out@ =~= old(out)@ + escaped(chars@.take(i + 1)));
        }
        i += 1;
    }
    proof {
        assert(chars@.take(chars.len() as int) =~= chars@);
    }
}

/// Renders the HTML page that lists the children of the directory
/// `base_uri`.
pub fn render_listing(base_uri: &str, files: &Vec<(String, String)>) -> (page: String)
    ensures
        page@ == listing_page(base_uri@, pair_views(files@)),
{
    let mut out = chars_of(
        "<!DOCTYPE html>\n<html>\n<head><meta charset=\"utf-8\"><title>Index of ",
    );
    push_escaped(&mut out, base_uri);
    extend_chars(&mut out, &chars_of("</title></head>\n<body>\n<h1>Index of "));
    push_escaped(&mut out, base_uri);
    extend_chars(&mut out, &chars_of("</h1>\n<ul>\n"));
    let ghost head = out@;
    let mut i: usize = 0;
    while i < files.len()
        invariant
            i <= files.len(),
            out@ == head + listing_items(pair_views(files@).take(i as int)),
        decreases files.len() - i,
    {
        let ghost before = out@;
        proof {
            let all = pair_views(files@);
            assert(all.take(i + 1).drop_last() =~= all.take(i as int));
            assert(all.take(i + 1).last() == (files@[i as int].0@, files@[i as int].1@));
        }
        extend_chars(&mut out, &chars_of("<li><a href=\"/ipfs/"));
        push_escaped(&mut out, files[i].0.as_str());
        extend_chars(&mut out, &chars_of("\">"));
        push_escaped(&mut out, files[i].1.as_str());
        extend_chars(&mut out, &chars_of("</a></li>\n"));
        proof {
            assert(out@ =~= head + listing_items(pair_views(files@).take(i + 1)));
        }
        i += 1;
    }
    proof {
        assert(pair_views(files@).take(files.len() as int) =~= pair_views(files@));
    }
    extend_chars(&mut out, &chars_of("</ul>\n</body>\n</html>\n"));
    proof {
        assert(out@ =~= listing_page(base_uri@, pair_views(files@)));
    }
    string_of(&out)
}

} // verus!
