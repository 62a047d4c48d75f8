//! What a download request is checked against and what is named after it.

use vstd::prelude::*;
use vstd::string::StringExecFns;

verus! {

/// A character that a safe name may hold: an ASCII letter or digit, an
/// underscore or a hyphen.
pub open spec fn safe_char(c: char) -> bool {
    ||| 'a' <= c <= 'z'
    ||| 'A' <= c <= 'Z'
    ||| '0' <= c <= '9'
    ||| c == '_'
    ||| c == '-'
}

/// Every character of the name is a safe one. The empty name is safe.
pub open spec fn safe_name(s: Seq<char>) -> bool {
    forall|i: int| 0 <= i < s.len() ==> safe_char(#[trigger] s[i])
}

fn is_safe_char(c: char) -> (ok: bool)
    ensures
        ok == safe_char(c),
{
    ('a' <= c && c <= 'z') || ('A' <= c && c <= 'Z') || ('0' <= c && c <= '9') || c == '_' || c
        == '-'
}

/// A name with one more character is safe exactly when the name was safe
/// and the character is a safe one.
proof fn lemma_safe_name_push(s: Seq<char>, c: char)
    ensures
        safe_name(s.push(c)) == (safe_name(s) && safe_char(c)),
{
    let longer = s.push(c);
    if safe_name(longer) {
        assert forall|j: int| 0 <= j < s.len() implies safe_char(#[trigger] s[j]) by {
            assert(longer[j] == s[j]);
        }
        assert(longer[s.len() as int] == c);
    }
}

/// Whether a name holds nothing but ASCII letters and digits, underscores
/// and hyphens.
pub fn is_safe_name(s: &str) -> (ok: bool)
    ensures
        ok == safe_name(s@),
{
    let mut ok: bool = true;
    for c in it: s.chars()
        invariant
            it.seq() == s@,
            ok == safe_name(s@.take(it.index() as int)),
    {
        proof {
            let i = it.index() as int;
            assert(s@.take(i + 1) == s@.take(i).push(c));
            lemma_safe_name_push(s@.take(i), c);
        }
        ok = ok && is_safe_char(c);
    }
    assert(s@.take(s@.len() as int) == s@);
    ok
}

/// Whether a request may be served: both its identifier and its name are
/// safe names.
pub fn is_safe_request(id: &str, name: &str) -> (ok: bool)
    ensures
        ok == (safe_name(id@) && safe_name(name@)),
{
    is_safe_name(id) && is_safe_name(name)
}

/// The name of the source file of an identifier: the identifier followed by
/// `.cpp`.
pub fn code_file_name(id: &str) -> (file: String)
    ensures
        file@ == id@ + ".cpp"@,
{
    let mut file = String::from_str(id);
    file.append(".cpp");
    file
}

/// The name under which a source file enters the archive: the file's name
/// after `code/`.
pub fn code_entry_name(file: &str) -> (entry: String)
    ensures
        entry@ == "code/"@ + file@,
{
    let mut entry = String::from_str("code/");
    entry.append(file);
    entry
}

/// The name of the archive that is sent: identifier and name, joined by an
/// underscore, followed by `.zip`.
pub fn archive_file_name(id: &str, name: &str) -> (file: String)
    ensures
        file@ == id@ + "_"@ + name@ + ".zip"@,
{
    let mut file = String::from_str(id);
    file.append("_");
    file.append(name);
    file.append(".zip");
    file
}

/// The value of the header that makes the reply a download named `file`.
pub fn content_disposition(file: &str) -> (value: String)
    ensures
        value@ == "attachment; filename=\""@ + file@ + "\""@,
{
    let mut value = String::from_str("attachment; filename=\"");
    value.append(file);
    value.append("\"");
    value
}

} // verus!
