//! File names of models.

use crate::text::{chars_of, text_of};
use vstd::prelude::*;
use vstd::string::*;

verus! {

/// The character that stands in a file name for one of a model name: an underscore for a slash, a
/// backslash, a colon or a blank, and any other for itself.
pub open spec fn safe_char(c: char) -> char {
    if c == '/' || c == '\\' || c == ':' || c == ' ' {
        '_'
    } else {
        c
    }
}

/// A model name as part of a file name, character by character.
pub open spec fn safe_name(name: Seq<char>) -> Seq<char> {
    name.map_values(|c: char| safe_char(c))
}

/// Sanitize a model name for use as a filename.
pub fn sanitize_filename(s: &str) -> (name: String)
    ensures
        name@ == safe_name(s@),
{
    let mut chars = chars_of(s);
    let mut i: usize = 0;
    while i < chars.len()
        invariant
            i <= chars.len(),
            chars.len() == s@.len(),
            forall|j: int| 0 <= j < i ==> chars@[j] == safe_char(s@[j]),
            forall|j: int| i <= j < chars.len() ==> chars@[j] == s@[j],
        decreases chars.len() - i,
    {
        let c = chars[i];
        if c == '/' || c == '\\' || c == ':' || c == ' ' {
            chars[i] = '_';
        }
        i += 1;
    }
    let name = text_of(&chars, 0, chars.len());
    assert(name@ == safe_name(s@));
    name
}

/// How a character of a model name is written in the name of the model's file: a slash, a
/// backslash, a colon, a blank or a percent sign as a percent sign and its code in two hexadecimal
/// digits, and any other as it is.
pub open spec fn escaped_char(c: char) -> Seq<char> {
    if c == '/' {
        seq!['%', '2', 'F']
    } else if c == '\\' {
        seq!['%', '5', 'C']
    } else if c == ':' {
        seq!['%', '3', 'A']
    } else if c == ' ' {
        seq!['%', '2', '0']
    } else if c == '%' {
        seq!['%', '2', '5']
    } else {
        seq![c]
    }
}

/// A model name as it is written in the name of the model's file.
pub open spec fn escaped_name(name: Seq<char>) -> Seq<char>
    decreases name.len(),
{
    if name.len() == 0 {
        seq![]
    } else {
        escaped_char(name[0]) + escaped_name(name.skip(1))
    }
}

/// The name of the file that a model's conversation is kept in. Each model has one of its own.
pub open spec fn state_file_name(model: Seq<char>) -> Seq<char> {
    escaped_name(model) + ".json"@
}

fn push_escaped(name: &mut String, c: char)
    ensures
        final(name)@ == old(name)@ + escaped_char(c),
{
    if c == '/' {
        name.append("%2F");
    } else if c == '\\' {
        name.append("%5C");
    } else if c == ':' {
        name.append("%3A");
    } else if c == ' ' {
        name.append("%20");
    } else if c == '%' {
        name.append("%25");
    } else {
        name.push(c);
    }
    proof {
        reveal_strlit("%2F");
        reveal_strlit("%5C");
        reveal_strlit("%3A");
        reveal_strlit("%20");
        reveal_strlit("%25");
        assert(name@ == old(name)@ + escaped_char(c));
    }
}

/// Names the file that a model's conversation is kept in.
pub fn name_state_file(model: &str) -> (name: String)
    ensures
        name@ == state_file_name(model@),
{
    let chars = chars_of(model);
    let mut name = String::new();
    let mut i: usize = 0;
    assert(chars@.skip(0) == chars@);
    assert(name@ + escaped_name(chars@) == escaped_name(chars@));
    while i < chars.len()
        invariant
            i <= chars.len(),
            name@ + escaped_name(chars@.skip(i as int)) == escaped_name(chars@),
        decreases chars.len() - i,
    {
        let ghost before = name@;
        push_escaped(&mut name, chars[i]);
        proof {
            let rest = chars@.skip(i as int);
            assert(rest.skip(1) == chars@.skip(i + 1));
            assert(before + (escaped_char(rest[0]) + escaped_name(rest.skip(1))) == name@
                + escaped_name(chars@.skip(i + 1)));
        }
        i += 1;
    }
    assert(name@ + escaped_name(chars@.skip(i as int)) == name@);
    name.append(".json");
    name
}

/// A sanitized name is as long as the name and holds no slash, backslash, colon or blank; to
/// sanitize it again changes nothing.
pub proof fn law_sanitized_name_is_safe(name: Seq<char>)
    ensures
        safe_name(name).len() == name.len(),
        forall|i: int| 0 <= i < name.len() ==> {
            let c = #[trigger] safe_name(name)[i];
            c != '/' && c != '\\' && c != ':' && c != ' '
        },
        safe_name(safe_name(name)) == safe_name(name),
{
}

/// A name that holds no slash, backslash, colon or blank is kept.
pub proof fn law_safe_name_is_kept(name: Seq<char>)
    requires
        forall|i: int| 0 <= i < name.len() ==> {
            let c = #[trigger] name[i];
            c != '/' && c != '\\' && c != ':' && c != ' '
        },
    ensures
        safe_name(name) == name,
{
}

proof fn lemma_escaped_is_safe(name: Seq<char>)
    ensures
        forall|i: int| 0 <= i < escaped_name(name).len() ==> {
            let c = #[trigger] escaped_name(name)[i];
            c != '/' && c != '\\' && c != ':' && c != ' '
        },
    decreases name.len(),
{
    if name.len() > 0 {
        lemma_escaped_is_safe(name.skip(1));
        let first = escaped_char(name[0]);
        assert forall|i: int| 0 <= i < escaped_name(name).len() implies {
            let c = #[trigger] escaped_name(name)[i];
            c != '/' && c != '\\' && c != ':' && c != ' '
        } by {
            if i >= first.len() {
                assert(escaped_name(name)[i] == escaped_name(name.skip(1))[i - first.len()]);
            }
        }
    }
}

proof fn lemma_escaped_is_distinct(a: Seq<char>, b: Seq<char>)
    requires
        escaped_name(a) == escaped_name(b),
    ensures
        a == b,
    decreases a.len(),
{
    if a.len() > 0 && b.len() > 0 {
        let whole = escaped_name(a);
        let first = escaped_char(a[0]);
        assert(whole[0] == first[0] && whole[0] == escaped_char(b[0])[0]);
        if first.len() == 3 {
            assert(whole[1] == first[1] && whole[1] == escaped_char(b[0])[1]);
            assert(whole[2] == first[2] && whole[2] == escaped_char(b[0])[2]);
        }
        assert(a[0] == b[0]);
        assert(whole.skip(first.len() as int) == escaped_name(a.skip(1)));
        assert(whole.skip(first.len() as int) == escaped_name(b.skip(1)));
        lemma_escaped_is_distinct(a.skip(1), b.skip(1));
        assert(a == seq![a[0]] + a.skip(1));
        assert(b == seq![b[0]] + b.skip(1));
    } else {
        assert(a.len() > 0 ==> escaped_name(a).len() >= escaped_char(a[0]).len() >= 1);
        assert(b.len() > 0 ==> escaped_name(b).len() >= escaped_char(b[0]).len() >= 1);
        assert(escaped_name(a).len() == 0 || escaped_name(b).len() == 0);
        assert(a.len() == 0 && b.len() == 0);
    }
}

proof fn lemma_plain_name_is_kept(name: Seq<char>)
    requires
        forall|i: int| 0 <= i < name.len() ==> {
            let c = #[trigger] name[i];
            c != '/' && c != '\\' && c != ':' && c != ' ' && c != '%'
        },
    ensures
        escaped_name(name) == name,
    decreases name.len(),
{
    if name.len() > 0 {
        lemma_plain_name_is_kept(name.skip(1));
        assert(name == seq![name[0]] + name.skip(1));
    }
}

/// The file of a model is one component of a path, whatever the model is called: its name holds no
/// separator, and is neither empty nor a way up.
pub proof fn law_state_file_is_one_component(model: Seq<char>)
    ensures
        state_file_name(model).len() >= 5,
        forall|i: int| 0 <= i < state_file_name(model).len() ==> {
            let c = #[trigger] state_file_name(model)[i];
            c != '/' && c != '\\' && c != ':' && c != ' '
        },
        state_file_name(model) != ".."@,
{
    lemma_escaped_is_safe(model);
    reveal_strlit(".json");
    reveal_strlit("..");
    assert(".json"@.len() == 5);
    assert(".."@.len() == 2);
}

/// Each model has a file of its own.
pub proof fn law_state_files_are_distinct(a: Seq<char>, b: Seq<char>)
    requires
        a != b,
    ensures
        state_file_name(a) != state_file_name(b),
{
    if state_file_name(a) == state_file_name(b) {
        let end = ".json"@;
        assert(state_file_name(a).take(state_file_name(a).len() - end.len()) == escaped_name(a));
        assert(state_file_name(b).take(state_file_name(b).len() - end.len()) == escaped_name(b));
        lemma_escaped_is_distinct(a, b);
    }
}

/// A model whose name needs no escape has the file `{model}.json`.
pub proof fn law_plain_model_names_its_file(model: Seq<char>)
    requires
        forall|i: int| 0 <= i < model.len() ==> {
            let c = #[trigger] model[i];
            c != '/' && c != '\\' && c != ':' && c != ' ' && c != '%'
        },
    ensures
        state_file_name(model) == model + ".json"@,
{
    lemma_plain_name_is_kept(model);
}

} // verus!
