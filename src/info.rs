use crate::protocol::{field_of, identity_field, InfoField};
use crate::record::Info;
use vstd::prelude::*;

verus! {

/// The text that lossy UTF-8 decoding makes of a byte string: valid sequences
/// decoded, each invalid one replaced by U+FFFD.
pub uninterp spec fn lossy_text(b: Seq<u8>) -> Seq<char>;

/// Relies on `String::from_utf8_lossy`, whose result depends on the bytes alone.
#[verifier::external_body]
fn decode_text(bytes: &[u8]) -> (r: String)
    ensures
        r@ == lossy_text(bytes@),
{
    String::from_utf8_lossy(bytes).into_owned()
}

/// The outcome of reading one characteristic: its identifier and, if the read
/// succeeded, the bytes it returned.
#[derive(Debug)]
pub struct CharacteristicRead {
    pub uuid: u128,
    pub value: Option<Vec<u8>>,
}

/// The bytes of the last successful read, among `reads`, of a characteristic
/// that carries field `f`.
pub open spec fn latest_value(reads: Seq<CharacteristicRead>, f: InfoField) -> Option<Seq<u8>>
    decreases reads.len(),
{
    if reads.len() == 0 {
        None
    } else {
        let last = reads.last();
        if field_of(last.uuid) == Some(f) && last.value is Some {
            Some(last.value->0@)
        } else {
            latest_value(reads.drop_last(), f)
        }
    }
}

/// The identity field `f` that a sequence of reads yields.
pub open spec fn info_field_from(reads: Seq<CharacteristicRead>, f: InfoField) -> Option<Seq<char>> {
    match latest_value(reads, f) {
        Some(b) => Some(lossy_text(b)),
        None => None,
    }
}

/// A field of the identity is set exactly when some characteristic carrying it
/// was read successfully: absent or unreadable characteristics leave their
/// fields unset, and the others are set whatever the rest hold.
pub proof fn field_set_iff_read(reads: Seq<CharacteristicRead>, f: InfoField)
    ensures
        info_field_from(reads, f) is Some <==> exists|i: int|
            0 <= i < reads.len() && field_of(#[trigger] reads[i].uuid) == Some(f) && reads[i].value is Some,
    decreases reads.len(),
{
    if reads.len() > 0 {
        let rest = reads.drop_last();
        field_set_iff_read(rest, f);
        if info_field_from(rest, f) is Some {
            let i = choose|i: int| 0 <= i < rest.len() && field_of(#[trigger] rest[i].uuid) == Some(f) && rest[i].value is Some;
            assert(reads[i] == rest[i]);
        }
        assert forall|i: int| 0 <= i < rest.len() implies #[trigger] reads[i] == rest[i] by {}
    }
}

/// Builds a device's identity from the reads of its characteristics.
///
/// Characteristics that carry no identity field are ignored; a failed read
/// leaves its field as if the characteristic were absent. Never fails.
pub fn read_info(reads: &Vec<CharacteristicRead>) -> (info: Info)
    ensures
        forall|f: InfoField| #[trigger] info.field(f) == info_field_from(reads@, f),
{
    let mut info = Info::new();
    let mut i: usize = 0;
    while i < reads.len()
        invariant
            i <= reads.len(),
            forall|f: InfoField| #[trigger] info.field(f) == info_field_from(reads@.take(i as int), f),
        decreases reads.len() - i,
    {
        let read = &reads[i];
        proof {
            assert(reads@.take(i + 1).drop_last() =~= reads@.take(i as int));
            assert(reads@.take(i + 1).last() == reads@[i as int]);
        }
        match identity_field(read.uuid) {
            Some(f) => match &read.value {
                Some(bytes) => {
                    let text = decode_text(bytes.as_slice());
                    info.set(f, text);
                },
                None => {},
            },
            None => {},
        }
        i = i + 1;
    }
    proof {
        assert(reads@.take(reads.len() as int) =~= reads@);
    }
    info
}

} // verus!
