//! Decisions about the stored secret: which storage backend is used, and which of
//! the items found in the store is the secret.
use crate::text::string_from_utf8;
use vstd::prelude::*;

verus! {

/// Backends that can hold the secret.
#[derive(Clone, Copy, Debug, PartialEq, Eq, Structural)]
pub enum SecretProviderOpts {
    /// The freedesktop secret service, through oo7.
    Oo7Opts,
}

/// The backend to use: the one asked for, else the secret service.
pub fn provider_or_default(opts: Option<SecretProviderOpts>) -> (r: SecretProviderOpts)
    ensures
        r == match opts {
            Some(o) => o,
            None => SecretProviderOpts::Oo7Opts,
        },
{
    match opts {
        Some(o) => o,
        None => SecretProviderOpts::Oo7Opts,
    }
}

/// The index of the first item that is valid UTF-8, if any.
pub open spec fn first_text_index(items: Seq<Vec<u8>>) -> Option<int> {
    if exists|i: int| 0 <= i < items.len() && vstd::utf8::valid_utf8(#[trigger] items[i]@) {
        Some(
            choose|i: int|
                0 <= i < items.len() && vstd::utf8::valid_utf8(#[trigger] items[i]@) && (forall|
                    j: int,
                | 0 <= j < i ==> !vstd::utf8::valid_utf8(#[trigger] items[j]@)),
        )
    } else {
        None
    }
}

/// How many of the items are valid UTF-8.
pub open spec fn text_count(items: Seq<Vec<u8>>) -> nat
    decreases items.len(),
{
    if items.len() == 0 {
        0
    } else {
        text_count(items.drop_last()) + if vstd::utf8::valid_utf8(items.last()@) {
            1nat
        } else {
            0nat
        }
    }
}

/// What the items found in the store give: the secret, and how many items could be
/// read as text (more than one, or none, is worth a warning).
pub struct StoredSecret {
    pub secret: Option<String>,
    pub readable: usize,
}

/// The secret among the items found in the store: the first item that decodes as
/// UTF-8 text, decoded; `None` when no item does. Items that do not decode are
/// skipped; the other decoded items are wiped. Also counts the items that decode.
pub fn choose_stored_secret(items: Vec<Vec<u8>>) -> (r: StoredSecret)
    ensures
        match first_text_index(items@) {
            Some(i) => r.secret matches Some(s) && s@ == vstd::utf8::decode_utf8(items@[i]@),
            None => r.secret is None,
        },
        r.readable == text_count(items@),
{
    let ghost all = items@;
    assert(all.len() == items.len());
    let mut rest = items;
    let mut taken: usize = 0;
    let mut readable: usize = 0;
    let mut chosen: Option<String> = None;
    let ghost mut at: int = -1;
    while rest.len() > 0
        invariant
            taken + rest@.len() == all.len(),
            all.len() <= usize::MAX,
            rest@ == all.subrange(taken as int, all.len() as int),
            readable <= taken,
            readable == text_count(all.take(taken as int)),
            chosen is None ==> forall|j: int| 0 <= j < taken ==> !vstd::utf8::valid_utf8(#[trigger] all[j]@),
            chosen is Some ==> 0 <= at < taken && vstd::utf8::valid_utf8(all[at]@) && (forall|j: int|
                0 <= j < at ==> !vstd::utf8::valid_utf8(#[trigger] all[j]@)),
            chosen matches Some(s) ==> s@ == vstd::utf8::decode_utf8(all[at]@),
        decreases rest.len(),
    {
        let item = rest.remove(0);
        proof {
            assert(item@ == all[taken as int]@);
            assert(all.take(taken + 1).drop_last() =~= all.take(taken as int));
            assert(all.take(taken + 1).last() == all[taken as int]);
        }
        let decoded = string_from_utf8(item);
        match decoded {
            Some(text) => {
                readable = readable + 1;
                if chosen.is_none() {
                    chosen = Some(text);
                    proof {
                        at = taken as int;
                    }
                } else {
                    let mut extra = text;
                    crate::secret::wipe_text(&mut extra);
                }
            },
            None => {},
        }
        taken = taken + 1;
    }
    proof {
        assert(all.take(taken as int) =~= all);
        match chosen {
            Some(_) => {
                assert(0 <= at < all.len() && vstd::utf8::valid_utf8(all[at]@));
                let k = choose|i: int|
                    0 <= i < all.len() && vstd::utf8::valid_utf8(#[trigger] all[i]@) && (forall|
                        j: int,
                    | 0 <= j < i ==> !vstd::utf8::valid_utf8(#[trigger] all[j]@));
                if k < at {
                } else if k > at {
                }
            },
            None => {
            },
        }
    }
    StoredSecret { secret: chosen, readable }
}

/// The bytes under which a secret text is stored: its UTF-8 encoding.
pub fn secret_bytes(secret: &str) -> (r: Vec<u8>)
    ensures
        r@ == vstd::utf8::encode_utf8(secret@),
{
    secret.as_bytes_vec()
}

/// What is stored for a secret reads back as that secret: when the first item found
/// in the store holds the bytes stored for `secret` (as when it is the only item),
/// that item is chosen and decodes to `secret`.
pub proof fn lemma_stored_secret_reads_back(secret: Seq<char>, items: Seq<Vec<u8>>)
    requires
        items.len() > 0,
        items[0]@ == vstd::utf8::encode_utf8(secret),
    ensures
        first_text_index(items) == Some(0int),
        vstd::utf8::decode_utf8(items[0]@) == secret,
{
    vstd::utf8::encode_utf8_valid_utf8(secret);
    vstd::utf8::encode_utf8_decode_utf8(secret);
    assert(vstd::utf8::valid_utf8(items[0]@));
}

} // verus!
