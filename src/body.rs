use crate::upload::paths_view;
use vstd::prelude::*;

verus! {

#[verifier::external_type_specification]
#[verifier::external_body]
pub struct ExJsonError(serde_json::Error);

/// The lowercase hexadecimal digit of `n`, for `n < 16`.
pub open spec fn hex_digit(n: u32) -> char {
    seq!['0', '1', '2', '3', '4', '5', '6', '7', '8', '9', 'a', 'b', 'c', 'd', 'e', 'f'][n as int]
}

/// How one character stands inside a JSON string: quote and backslash get a
/// backslash, the control characters with a short escape get it, the other
/// control characters are written `\u00` and two hex digits, and every other
/// character stands as it is.
pub open spec fn json_escape_char(c: char) -> Seq<char> {
    if c == '"' {
        seq!['\\', '"']
    } else if c == '\\' {
        seq!['\\', '\\']
    } else if c == '\x08' {
        seq!['\\', 'b']
    } else if c == '\t' {
        seq!['\\', 't']
    } else if c == '\n' {
        seq!['\\', 'n']
    } else if c == '\x0c' {
        seq!['\\', 'f']
    } else if c == '\r' {
        seq!['\\', 'r']
    } else if (c as u32) < 0x20 {
        seq!['\\', 'u', '0', '0', hex_digit(c as u32 / 16), hex_digit(c as u32 % 16)]
    } else {
        seq![c]
    }
}

/// The characters of `s`, each escaped for a JSON string.
pub open spec fn json_escaped(s: Seq<char>) -> Seq<char>
    decreases s.len(),
{
    if s.len() == 0 {
        seq![]
    } else {
        json_escaped(s.drop_last()) + json_escape_char(s.last())
    }
}

/// The compact JSON text of a string: its escaped characters between quotes.
pub open spec fn json_string_of(s: Seq<char>) -> Seq<char> {
    seq!['"'] + json_escaped(s) + seq!['"']
}

/// Relies on serde_json::to_string, applied to a string: it writes into a
/// `Vec`, which cannot fail, the escaped string between quotes.
#[verifier::external_body]
fn json_string(s: &str) -> (r: Result<String, serde_json::Error>)
    ensures
        r is Ok,
        r matches Ok(t) ==> t@ == json_string_of(s@),
{
    serde_json::to_string(s)
}

/// The items, in order, with a comma between each two.
pub open spec fn comma_joined(items: Seq<Seq<char>>) -> Seq<char>
    decreases items.len(),
{
    if items.len() == 0 {
        seq![]
    } else if items.len() == 1 {
        items[0]
    } else {
        comma_joined(items.drop_last()) + seq![','] + items.last()
    }
}

/// The compact JSON object `{"saved_files":[...]}` around already encoded
/// JSON values.
pub open spec fn saved_files_document(encoded: Seq<Seq<char>>) -> Seq<char> {
    "{\"saved_files\":["@ + comma_joined(encoded) + "]}"@
}

/// The JSON text of each path.
pub open spec fn encoded_paths(paths: Seq<String>) -> Seq<Seq<char>> {
    paths.map_values(|p: String| json_string_of(p@))
}

/// Frames already encoded JSON strings as the body of a successful upload.
pub fn frame_saved_files(encoded: &Vec<String>) -> (r: String)
    ensures
        r@ == saved_files_document(paths_view(encoded@)),
{
    let ghost items = paths_view(encoded@);
    let mut r = String::from_str("{\"saved_files\":[");
    let comma = ",";
    proof {
        reveal_strlit(",");
        assert(seq![','] =~= comma@);
    }
    let mut i: usize = 0;
    while i < encoded.len()
        invariant
            i <= encoded.len(),
            items == paths_view(encoded@),
            r@ == "{\"saved_files\":["@ + comma_joined(items.subrange(0, i as int)),
            comma@ == seq![','],
        decreases encoded.len() - i,
    {
        if i > 0 {
            r.append(comma);
        }
        r.append(encoded[i].as_str());
        let ghost done = items.subrange(0, i + 1);
        assert(done.drop_last() =~= items.subrange(0, i as int));
        assert(r@ =~= "{\"saved_files\":["@ + comma_joined(done));
        i = i + 1;
    }
    assert(items.subrange(0, i as int) =~= items);
    r.append("]}");
    r
}

/// The body of a successful upload: `{"saved_files":[...]}` listing `paths` in
/// order, each encoded as a JSON string.
pub fn saved_files_body(paths: &Vec<String>) -> (r: String)
    ensures
        r@ == saved_files_document(encoded_paths(paths@)),
{
    let mut encoded: Vec<String> = Vec::new();
    let mut i: usize = 0;
    while i < paths.len()
        invariant
            i <= paths.len(),
            encoded@.len() == i,
            paths_view(encoded@) == encoded_paths(paths@).subrange(0, i as int),
        decreases paths.len() - i,
    {
        let t = json_string(paths[i].as_str()).unwrap();
        assert(t@ == json_string_of(paths@[i as int]@));
        encoded.push(t);
        assert(encoded@[i as int]@ == encoded_paths(paths@)[i as int]);
        assert(paths_view(encoded@) =~= encoded_paths(paths@).subrange(0, i + 1));
        i = i + 1;
    }
    assert(encoded_paths(paths@).subrange(0, i as int) =~= encoded_paths(paths@));
    frame_saved_files(&encoded)
}

} // verus!
