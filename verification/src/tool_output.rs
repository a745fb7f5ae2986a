//! The JSON results of the builtin filesystem tools, as compact text with members in key
//! order.

use vstd::prelude::*;

use crate::json::{json_string_literal, quote_json_string};
use crate::search::LineMatch;
use crate::text::{decimal, owned, push_decimal, push_str};
use crate::tools::{file_type_label, FileType};

verus! {

/// The label a tool result gives an entry kind.
pub open spec fn file_type_text(file_type: FileType) -> Seq<char> {
    match file_type {
        FileType::File => "file"@,
        FileType::Directory => "directory"@,
        FileType::Symlink => "symlink"@,
        FileType::Other => "other"@,
    }
}

/// The items of a JSON array, separated by commas.
pub open spec fn joined(items: Seq<Seq<char>>) -> Seq<char>
    decreases items.len(),
{
    if items.len() == 0 {
        Seq::empty()
    } else if items.len() == 1 {
        items[0]
    } else {
        joined(items.drop_last()) + ","@ + items.last()
    }
}

/// The JSON array of `items`.
pub open spec fn json_array(items: Seq<Seq<char>>) -> Seq<char> {
    "["@ + joined(items) + "]"@
}

/// The JSON object of one directory entry.
pub open spec fn entry_json(path: Seq<char>, file_name: Seq<char>, file_type: FileType) -> Seq<char> {
    "{\"file_name\":"@ + json_string_literal(file_name) + ",\"file_type\":"@ + json_string_literal(
        file_type_text(file_type),
    ) + ",\"path\":"@ + json_string_literal(path) + "}"@
}

/// The JSON object of one search match in the file displayed as `path`.
pub open spec fn match_json(path: Seq<char>, m: LineMatch) -> Seq<char> {
    "{\"line_number\":"@ + decimal(m.line_number as nat) + ",\"line_text\":"@ + json_string_literal(m.line_text@)
        + ",\"match_end\":"@ + decimal(m.match_end as nat) + ",\"match_start\":"@ + decimal(m.match_start as nat)
        + ",\"path\":"@ + json_string_literal(path) + "}"@
}

fn push_quoted(s: &mut String, text: &str)
    ensures
        final(s)@ == old(s)@ + json_string_literal(text@),
{
    let quoted = quote_json_string(text);
    push_str(s, quoted.as_str());
}

/// Appends the JSON array of `items` to `s`.
fn push_array(s: &mut String, items: &Vec<String>)
    ensures
        final(s)@ == old(s)@ + json_array(items@.map_values(|t: String| t@)),
{
    let ghost all = items@.map_values(|t: String| t@);
    let ghost start = s@;
    push_str(s, "[");
    let mut i: usize = 0;
    while i < items.len()
        invariant
            i <= items@.len(),
            all == items@.map_values(|t: String| t@),
            s@ == start + "["@ + joined(all.take(i as int)),
        decreases items.len() - i,
    {
        let ghost before = s@;
        if i > 0 {
            push_str(s, ",");
        }
        push_str(s, items[i].as_str());
        proof {
            let t = all.take(i + 1);
            assert(t.drop_last() =~= all.take(i as int));
            if i == 0 {
                assert(joined(all.take(0)) =~= Seq::<char>::empty());
                assert(s@ =~= start + "["@ + joined(t));
            } else {
                assert(s@ =~= start + "["@ + joined(t));
            }
        }
        i = i + 1;
    }
    assert(all.take(items@.len() as int) =~= all);
    push_str(s, "]");
    assert(s@ =~= start + json_array(all));
}

/// The JSON object of one directory entry.
pub fn entry_output(path: &str, file_name: &str, file_type: FileType) -> (r: String)
    ensures
        r@ == entry_json(path@, file_name@, file_type),
{
    let mut r = owned("{\"file_name\":");
    push_quoted(&mut r, file_name);
    push_str(&mut r, ",\"file_type\":");
    push_quoted(&mut r, file_type_label(file_type));
    push_str(&mut r, ",\"path\":");
    push_quoted(&mut r, path);
    push_str(&mut r, "}");
    r
}

/// The result of listing the directory displayed as `path`: its entries, in listing order.
pub fn list_dir_output(path: &str, entries: &Vec<String>) -> (r: String)
    ensures
        r@ == "{\"entries\":"@ + json_array(entries@.map_values(|t: String| t@)) + ",\"path\":"@
            + json_string_literal(path@) + "}"@,
{
    let mut r = owned("{\"entries\":");
    push_array(&mut r, entries);
    push_str(&mut r, ",\"path\":");
    push_quoted(&mut r, path);
    push_str(&mut r, "}");
    r
}

/// The result of reading the metadata of the entry displayed as `path`.
pub fn file_metadata_output(path: &str, file_type: FileType, len: u64) -> (r: String)
    ensures
        r@ == "{\"file_type\":"@ + json_string_literal(file_type_text(file_type)) + ",\"len\":"@ + decimal(
            len as nat,
        ) + ",\"path\":"@ + json_string_literal(path@) + "}"@,
{
    let mut r = owned("{\"file_type\":");
    push_quoted(&mut r, file_type_label(file_type));
    push_str(&mut r, ",\"len\":");
    push_decimal(&mut r, len);
    push_str(&mut r, ",\"path\":");
    push_quoted(&mut r, path);
    push_str(&mut r, "}");
    r
}

/// The JSON object of one search match in the file displayed as `path`.
pub fn match_output(path: &str, m: &LineMatch) -> (r: String)
    ensures
        r@ == match_json(path@, *m),
{
    let mut r = owned("{\"line_number\":");
    push_decimal(&mut r, m.line_number as u64);
    push_str(&mut r, ",\"line_text\":");
    push_quoted(&mut r, m.line_text.as_str());
    push_str(&mut r, ",\"match_end\":");
    push_decimal(&mut r, m.match_end as u64);
    push_str(&mut r, ",\"match_start\":");
    push_decimal(&mut r, m.match_start as u64);
    push_str(&mut r, ",\"path\":");
    push_quoted(&mut r, path);
    push_str(&mut r, "}");
    r
}

/// The result of searching for `query` under the path displayed as `path`.
pub fn search_output(path: &str, query: &str, matches: &Vec<String>) -> (r: String)
    ensures
        r@ == "{\"matches\":"@ + json_array(matches@.map_values(|t: String| t@)) + ",\"path\":"@
            + json_string_literal(path@) + ",\"query\":"@ + json_string_literal(query@) + "}"@,
{
    let mut r = owned("{\"matches\":");
    push_array(&mut r, matches);
    push_str(&mut r, ",\"path\":");
    push_quoted(&mut r, path);
    push_str(&mut r, ",\"query\":");
    push_quoted(&mut r, query);
    push_str(&mut r, "}");
    r
}

/// The result of a patch: whether it completed, and what it reports.
pub fn apply_patch_result(completed: bool, output: &str) -> (r: String)
    ensures
        r@ == "{\"output\":"@ + json_string_literal(output@) + ",\"status\":"@ + json_string_literal(
            if completed { "completed"@ } else { "failed"@ },
        ) + "}"@,
{
    let mut r = owned("{\"output\":");
    push_quoted(&mut r, output);
    push_str(&mut r, ",\"status\":");
    if completed {
        push_quoted(&mut r, "completed");
    } else {
        push_quoted(&mut r, "failed");
    }
    push_str(&mut r, "}");
    r
}

} // verus!
