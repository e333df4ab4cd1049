//! What holds of the configuration, of identifiers and of file names, whatever they are made of.

use crate::config::{is_state_dir, or_default, shown_key, Config, EnvVars, StatePath};
use crate::filename::{escaped_name, safe_name, state_file_name};
use crate::ids::{is_cut_of, is_hex_id, joined_texts};
use vstd::prelude::*;
use vstd::utf8::*;

verus! {

/// A variable that is set wins over the default of its setting, even where it is empty, and no
/// other setting depends on it.
pub proof fn law_variables_win(config: Config, env: EnvVars)
    requires
        config.follows(env),
    ensures
        env.base_url matches Some(value) ==> config.base_url@ == value@,
        env.base_url is None ==> config.base_url@ == "https://opencode.ai/zen/v1"@,
        env.api_key matches Some(value) ==> config.api_key@ == value@,
        env.api_key is None ==> config.api_key@ == "public"@,
        env.client_name matches Some(value) ==> config.client_name@ == value@,
        env.client_name is None ==> config.client_name@ == "cli"@,
        env.user_agent matches Some(value) ==> config.user_agent@ == value@,
        env.user_agent is None ==> config.user_agent@ == "opencode/0.0.0"@,
        env.listen_addr matches Some(value) ==> config.listen_addr@ == value@,
        env.listen_addr is None ==> config.listen_addr@ == "127.0.0.1:8080"@,
{
}

/// A value that is given is taken as it is, whatever the default.
pub proof fn law_default_stands_in(value: String, default: Seq<char>)
    ensures
        or_default(Some(value), default) == value@,
        or_default(None, default) == default,
{
}

/// The state directory is the one that is named, or else two components below the home directory.
pub proof fn law_state_directory(dir: StatePath, env: EnvVars)
    requires
        is_state_dir(dir, env),
    ensures
        env.state_dir matches Some(path) ==> dir.base@ == path@ && dir.components.len() == 0,
        env.state_dir is None ==> {
            &&& dir.components.len() == 2
            &&& dir.components@[0]@ == ".cache"@
            &&& dir.components@[1]@ == "opencode-zen"@
            &&& env.home matches Some(home) ==> dir.base@ == home@
            &&& env.home is None ==> dir.base@ == "/tmp"@
        },
{
    let components = dir.components.deep_view();
    assert(components.len() == dir.components.len());
    if env.state_dir is None {
        assert(components[0] == dir.components@[0]@);
        assert(components[1] == dir.components@[1]@);
    }
}

/// A key of ASCII characters is shown by its first four and its last four, and by nothing between
/// them: two keys that agree there are shown alike.
pub proof fn law_key_is_shown_by_its_ends(key: Seq<char>)
    requires
        is_ascii_chars(key),
        key.len() >= 4,
        key != "public"@,
    ensures
        shown_key(key) == key.take(4) + "..."@ + key.skip(key.len() - 4),
{
    let bytes = encode_utf8(key);
    is_ascii_chars_encode_utf8(key);
    let first = key.take(4);
    let last = key.skip(key.len() - 4);
    assert(is_ascii_chars(first));
    assert(is_ascii_chars(last)) by {
        assert forall|i: int| 0 <= i < last.len() implies (#[trigger] last[i] as nat) < 128 by {
            assert(last[i] == key[key.len() - 4 + i]);
        }
    }
    is_ascii_chars_encode_utf8(first);
    is_ascii_chars_encode_utf8(last);
    assert(encode_utf8(first) =~= bytes.take(4));
    assert(encode_utf8(last) =~= bytes.skip(bytes.len() - 4));
    encode_utf8_decode_utf8(first);
    encode_utf8_decode_utf8(last);
}

/// A random identifier has the length that was asked for and is made of lower-case hexadecimal
/// digits.
pub proof fn law_identifiers_are_hexadecimal(id: Seq<char>, num_chars: nat)
    requires
        is_hex_id(id, num_chars),
    ensures
        id.len() == num_chars,
        forall|i: int| 0 <= i < id.len() ==> ('0' <= #[trigger] id[i] <= '9' || 'a' <= id[i] <= 'f'),
{
    assert forall|i: int| 0 <= i < id.len() implies ('0' <= #[trigger] id[i] <= '9' || 'a' <= id[i]
        <= 'f') by {
        assert(crate::ids::is_uuid_digit(id[i], i % 32));
    }
}

proof fn lemma_joined_by_thirty_two(draws: Seq<Seq<char>>, i: int)
    requires
        forall|k: int| 0 <= k < draws.len() ==> (#[trigger] draws[k]).len() == 32,
        0 <= i < 32 * draws.len(),
    ensures
        joined_texts(draws).len() == 32 * draws.len(),
        joined_texts(draws)[i] == draws[i / 32][i % 32],
    decreases draws.len(),
{
    let before = draws.drop_last();
    if before.len() > 0 {
        assert forall|k: int| 0 <= k < before.len() implies (#[trigger] before[k]).len() == 32 by {
            assert(before[k] == draws[k]);
        }
        lemma_joined_by_thirty_two(before, 0);
    }
    assert(joined_texts(before).len() == 32 * before.len());
    assert(draws.last().len() == 32);
    if i < 32 * before.len() {
        lemma_joined_by_thirty_two(before, i);
        assert(before[i / 32] == draws[i / 32]);
    } else {
        assert(i / 32 == before.len());
        assert(joined_texts(draws)[i] == draws.last()[i - 32 * before.len()]);
    }
}

/// Each digit of a random identifier is the one that was drawn for its place, and no more was
/// drawn than there are places for.
pub proof fn law_identifiers_are_as_drawn(id: Seq<char>, draws: Seq<Seq<char>>, num_chars: nat, i: int)
    requires
        is_cut_of(id, draws, num_chars),
        0 <= i < num_chars,
    ensures
        id.len() == num_chars,
        id[i] == draws[i / 32][i % 32],
        32 * draws.len() < num_chars + 32,
{
    assert forall|k: int| 0 <= k < draws.len() implies (#[trigger] draws[k]).len() == 32 by {
        assert(is_hex_id(draws[k], 32));
    }
    lemma_joined_by_thirty_two(draws, i);
}

/// Texts that are joined are all there, in order.
pub proof fn law_joined_texts_are_all_there(texts: Seq<Seq<char>>)
    ensures
        joined_texts(texts) == texts.flatten(),
    decreases texts.len(),
{
    if texts.len() > 0 {
        law_joined_texts_are_all_there(texts.drop_last());
        texts.drop_last().lemma_flatten_push(texts.last());
        assert(texts.drop_last().push(texts.last()) == texts);
    }
}

/// To sanitize a name puts an underscore for each slash, backslash, colon and blank, and keeps
/// every other character in its place.
pub proof fn law_sanitized_character_by_character(name: Seq<char>, i: int)
    requires
        0 <= i < name.len(),
    ensures
        safe_name(name).len() == name.len(),
        name[i] == '/' || name[i] == '\\' || name[i] == ':' || name[i] == ' ' ==> safe_name(name)[i]
            == '_',
        name[i] != '/' && name[i] != '\\' && name[i] != ':' && name[i] != ' ' ==> safe_name(name)[i]
            == name[i],
{
}

/// A name is escaped piece by piece, and each of the five characters that are escaped by its code.
pub proof fn law_escaped_piece_by_piece(a: Seq<char>, b: Seq<char>)
    ensures
        escaped_name(a + b) == escaped_name(a) + escaped_name(b),
        escaped_name(seq!['/']) == seq!['%', '2', 'F'],
        escaped_name(seq!['\\']) == seq!['%', '5', 'C'],
        escaped_name(seq![':']) == seq!['%', '3', 'A'],
        escaped_name(seq![' ']) == seq!['%', '2', '0'],
        escaped_name(seq!['%']) == seq!['%', '2', '5'],
        state_file_name(a) == escaped_name(a) + ".json"@,
    decreases a.len(),
{
    reveal_with_fuel(escaped_name, 2);
    if a.len() == 0 {
        assert(a + b == b);
        assert(escaped_name(a) + escaped_name(b) == escaped_name(b));
    } else {
        law_escaped_piece_by_piece(a.skip(1), b);
        assert((a + b).skip(1) == a.skip(1) + b);
        assert((a + b)[0] == a[0]);
        assert(escaped_name(a + b) == escaped_name(a) + escaped_name(b));
    }
}

} // verus!
