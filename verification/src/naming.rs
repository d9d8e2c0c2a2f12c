//! The naming utility: derives a platform-legal pack identifier from a
//! user-chosen display name. The verified stages replace spaces with
//! underscores and append the fixed namespacing suffix; between them the
//! caller transliterates the stem to Latin script (an outside concern, see
//! the crate's application side). Every stage is a pure function of its
//! input, so a given input always yields the same identifier.

use vstd::prelude::*;

verus! {

/// The display name with every space replaced by an underscore.
pub open spec fn underscored_spec(s: Seq<char>) -> Seq<char> {
    s.map_values(|c: char| if c == ' ' { '_' } else { c })
}

/// The fixed namespacing suffix that the platform's identifier rules require.
pub open spec fn suffix_spec() -> Seq<char> {
    "_by_flex_stickerpack_bot"@
}

/// The generated identifier for a transliterated stem: the stem with the
/// namespacing suffix appended.
pub open spec fn pack_id_spec(translit_stem: Seq<char>) -> Seq<char> {
    translit_stem + suffix_spec()
}

/// Relies on String::push: appends exactly the one character.
#[verifier::external_body]
fn push_char(s: &mut String, c: char)
    ensures
        final(s)@ == old(s)@.push(c),
{
    s.push(c)
}

/// The display name with every space replaced by an underscore.
pub fn underscored(name: &String) -> (r: String)
    ensures
        r@ == underscored_spec(name@),
{
    let stem = name.as_str();
    let n = stem.unicode_len();
    let mut r = String::new();
    let mut i: usize = 0;
    while i < n
        invariant
            n == stem@.len(),
            stem@ == name@,
            i <= n,
            r@ == underscored_spec(name@.subrange(0, i as int)),
        decreases n - i,
    {
        let c = stem.get_char(i);
        if c == ' ' {
            push_char(&mut r, '_');
        } else {
            push_char(&mut r, c);
        }
        proof {
            assert(r@ =~= underscored_spec(name@.subrange(0, i + 1 as int)));
        }
        i += 1;
    }
    proof {
        assert(name@.subrange(0, n as int) =~= name@);
    }
    r
}

/// The generated identifier: the transliterated stem with the namespacing
/// suffix appended.
pub fn pack_id_from_stem(translit_stem: &String) -> (r: String)
    ensures
        r@ == pack_id_spec(translit_stem@),
{
    let mut r = translit_stem.clone();
    r.append("_by_flex_stickerpack_bot");
    r
}

/// Law: the identifier derivation is deterministic — from one transliterated
/// stem only one generated identifier can arise, and from one display name
/// only one underscored stem.
pub proof fn lemma_naming_deterministic(
    name: Seq<char>,
    stem1: Seq<char>,
    stem2: Seq<char>,
    id1: Seq<char>,
    id2: Seq<char>,
)
    requires
        stem1 == underscored_spec(name),
        stem2 == underscored_spec(name),
        id1 == pack_id_spec(stem1),
        id2 == pack_id_spec(stem2),
    ensures
        stem1 == stem2,
        id1 == id2,
{
}

} // verus!
