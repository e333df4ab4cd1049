//! Identifiers made of hexadecimal digits.

use vstd::prelude::*;
use vstd::string::*;
use vstd::utf8::*;

verus! {

/// Whether a character is a lower-case hexadecimal digit.
pub open spec fn is_hex_digit(c: char) -> bool {
    '0' <= c <= '9' || 'a' <= c <= 'f'
}

/// Whether a digit can stand at a position of a random (version 4) UUID written as 32 digits: the
/// digit at position 12 tells the version, the one at position 16 the variant.
pub open spec fn is_uuid_digit(c: char, position: int) -> bool {
    &&& is_hex_digit(c)
    &&& position == 12 ==> c == '4'
    &&& position == 16 ==> c == '8' || c == '9' || c == 'a' || c == 'b'
}

/// Whether a text is a run of random UUIDs without hyphens, cut to the given length.
pub open spec fn is_hex_id(id: Seq<char>, num_chars: nat) -> bool {
    &&& id.len() == num_chars
    &&& forall|i: int| 0 <= i < id.len() ==> is_uuid_digit(#[trigger] id[i], i % 32)
}

/// `uuid::Uuid::new_v4`, written by `Uuid::simple` and its `Display`: the 32 digits of a random
/// UUID. Which of them it is, is left to chance.
#[verifier::external_body]
fn random_digits() -> (digits: String)
    ensures
        is_hex_id(digits@, 32),
{
    uuid::Uuid::new_v4().simple().to_string()
}

proof fn lemma_hex_id_ascii(id: Seq<char>)
    requires
        is_hex_id(id, id.len()),
    ensures
        is_ascii_chars(id),
        encode_utf8(id).len() == id.len(),
{
    assert forall|i: int| 0 <= i < id.len() implies (#[trigger] id[i] as nat) < 128 by {
        assert(is_uuid_digit(id[i], i % 32));
    }
    is_ascii_chars_encode_utf8(id);
}

/// The first characters of an ASCII text.
pub fn leading_chars(text: &str, count: usize) -> (leading: String)
    requires
        is_ascii_chars(text@),
        count <= text@.len(),
    ensures
        leading@ == text@.take(count as int),
{
    text.substring_ascii(0, count).to_string()
}

/// Texts, one behind the other.
pub open spec fn joined_texts(texts: Seq<Seq<char>>) -> Seq<char>
    decreases texts.len(),
{
    if texts.len() == 0 {
        seq![]
    } else {
        joined_texts(texts.drop_last()) + texts.last()
    }
}

proof fn lemma_joined_draws(draws: Seq<Seq<char>>)
    requires
        forall|i: int| 0 <= i < draws.len() ==> is_hex_id(#[trigger] draws[i], 32),
    ensures
        is_hex_id(joined_texts(draws), 32 * draws.len()),
    decreases draws.len(),
{
    if draws.len() > 0 {
        lemma_joined_draws(draws.drop_last());
        let before = joined_texts(draws.drop_last());
        let all = joined_texts(draws);
        assert(is_hex_id(draws.last(), 32));
        assert forall|i: int| 0 <= i < all.len() implies is_uuid_digit(
            #[trigger] all[i],
            i % 32,
        ) by {
            if i >= before.len() {
                assert(all[i] == draws.last()[i - before.len()]);
                assert((i - before.len()) % 32 == i % 32);
            }
        }
    }
}

/// Random digits, as they were drawn, joined and cut to a length.
pub fn cut_draws(draws: &Vec<String>, num_chars: usize) -> (id: String)
    requires
        is_ascii_chars(joined_texts(draws.deep_view())),
        num_chars <= joined_texts(draws.deep_view()).len(),
    ensures
        id@ == joined_texts(draws.deep_view()).take(num_chars as int),
{
    let ghost all = draws.deep_view();
    let mut digits = String::new();
    let mut i: usize = 0;
    while i < draws.len()
        invariant
            i <= draws.len(),
            all == draws.deep_view(),
            digits@ == joined_texts(all.take(i as int)),
        decreases draws.len() - i,
    {
        digits.append(draws[i].as_str());
        assert(all.take(i + 1).drop_last() == all.take(i as int));
        i += 1;
    }
    assert(all.take(all.len() as int) == all);
    leading_chars(digits.as_str(), num_chars)
}

/// Whether a text is what some draws of 32 digits, just as many as are needed, give when they are
/// joined and cut to the given length.
pub open spec fn is_cut_of(id: Seq<char>, draws: Seq<Seq<char>>, num_chars: nat) -> bool {
    &&& draws.len() == (num_chars + 31) / 32
    &&& forall|i: int| 0 <= i < draws.len() ==> is_hex_id(#[trigger] draws[i], 32)
    &&& id == joined_texts(draws).take(num_chars as int)
}

/// Generate a random hex string of the given length.
///
/// The digits of as many random UUIDs as are needed, and no more, are joined and cut to the
/// length. A text of whole UUIDs has to fit in memory.
pub fn hex_id(num_chars: usize) -> (id: String)
    requires
        num_chars <= isize::MAX - 31,
    ensures
        is_hex_id(id@, num_chars as nat),
        exists|draws: Seq<Seq<char>>| is_cut_of(id@, draws, num_chars as nat),
{
    let mut draws: Vec<String> = Vec::new();
    let needed: usize = (num_chars + 31) / 32;
    while draws.len() < needed
        invariant
            draws.len() <= needed,
            forall|i: int| 0 <= i < draws.len() ==> is_hex_id(#[trigger] draws@[i]@, 32),
        decreases needed - draws.len(),
    {
        draws.push(random_digits());
    }
    proof {
        let all = draws.deep_view();
        assert forall|i: int| 0 <= i < all.len() implies is_hex_id(#[trigger] all[i], 32) by {
            assert(is_hex_id(draws@[i]@, 32));
        }
        lemma_joined_draws(all);
        lemma_hex_id_ascii(joined_texts(all));
    }
    let id = cut_draws(&draws, num_chars);
    assert(is_cut_of(id@, draws.deep_view(), num_chars as nat));
    id
}

/// The MD5 digest of some bytes, as lower-case hexadecimal digits.
pub uninterp spec fn md5_hex(bytes: Seq<u8>) -> Seq<char>;

/// `md5::compute`, written by the `LowerHex` of its digest: 32 digits that depend on the bytes
/// alone.
#[verifier::external_body]
fn digest_digits(bytes: &[u8]) -> (digits: String)
    ensures
        digits@ == md5_hex(bytes@),
        digits@.len() == 32,
        forall|i: int| 0 <= i < 32 ==> is_hex_digit(#[trigger] digits@[i]),
{
    format!("{:x}", md5::compute(bytes))
}

/// The project identifier of a digest: `prj_` and the first 16 digits.
pub fn project_of_digest(digits: &str) -> (project: String)
    requires
        is_ascii_chars(digits@),
        digits@.len() >= 16,
    ensures
        project@ == "prj_"@ + digits@.take(16),
{
    let mut project = "prj_".to_string();
    project.append(leading_chars(digits, 16).as_str());
    project
}

/// The project identifier of a working directory: `prj_` and the first 16 digits of the MD5 digest
/// of its path.
pub fn project_of_directory(directory: &str) -> (project: String)
    ensures
        project@ == "prj_"@ + md5_hex(encode_utf8(directory@)).take(16),
        project@.len() == 20,
        forall|i: int| 4 <= i < 20 ==> is_hex_digit(#[trigger] project@[i]),
{
    let digits = digest_digits(directory.as_bytes());
    let project = project_of_digest(digits.as_str());
    proof {
        reveal_strlit("prj_");
    }
    project
}

} // verus!
