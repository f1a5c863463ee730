use vstd::prelude::*;

use crate::error::{CardError, NfcError};

verus! {

/// What the reader learns of a card it selected: for an ISO 14443-A card, its UID buffer and
/// how many of its bytes are the UID; for any other technology, nothing.
#[derive(Debug, Clone, Copy, PartialEq, Eq)]
pub enum SelectedTarget {
    Iso14443a { uid: [u8; 10], uid_len: usize },
    Other,
}

/// What polling for a card leads to: the UID of a present ISO 14443-A card, or why not.
pub open spec fn poll_outcome_spec(selection: Result<SelectedTarget, NfcError>) -> Result<Seq<u8>, CardError> {
    match selection {
        Ok(SelectedTarget::Iso14443a { uid, uid_len }) => if uid_len == 0 {
            Err(CardError::NotFound)
        } else {
            Ok(uid@.take(uid_len as int))
        },
        Ok(SelectedTarget::Other) => Err(CardError::UnsupportedCard),
        Err(_) => Err(CardError::UnknownError),
    }
}

/// The driver's account of a selection is consistent: a UID is at most ten bytes long.
pub open spec fn selection_wf(selection: Result<SelectedTarget, NfcError>) -> bool {
    selection matches Ok(SelectedTarget::Iso14443a { uid_len, .. }) ==> uid_len <= 10
}

/// Judges the outcome of selecting a passive target. An ISO 14443-A card with a UID gives
/// that UID; one with an empty UID means no card is there; any other technology is not
/// supported; a failed selection is an unknown error.
pub fn poll_outcome(selection: &Result<SelectedTarget, NfcError>) -> (r: Result<Vec<u8>, CardError>)
    requires
        selection_wf(*selection),
    ensures
        match (r, poll_outcome_spec(*selection)) {
            (Ok(uid), Ok(expected)) => uid@ == expected,
            (Err(e), Err(expected)) => e == expected,
            _ => false,
        },
        (selection matches Ok(SelectedTarget::Iso14443a { uid, uid_len }) ==> (if uid_len == 0 {
            r == Err::<Vec<u8>, CardError>(CardError::NotFound)
        } else {
            r matches Ok(found) && found@ == uid@.take(uid_len as int)
        })),
        *selection == Ok::<SelectedTarget, NfcError>(SelectedTarget::Other) ==> r == Err::<
            Vec<u8>,
            CardError,
        >(CardError::UnsupportedCard),
        selection is Err ==> r == Err::<Vec<u8>, CardError>(CardError::UnknownError),
        r == Err::<Vec<u8>, CardError>(CardError::NotFound) <==> (selection matches Ok(
            SelectedTarget::Iso14443a { uid_len, .. },
        ) && uid_len == 0),
{
    match selection {
        Ok(SelectedTarget::Iso14443a { uid, uid_len }) => {
            if *uid_len == 0 {
                Err(CardError::NotFound)
            } else {
                let mut out: Vec<u8> = Vec::new();
                let mut i: usize = 0;
                while i < *uid_len
                    invariant
                        *uid_len <= 10,
                        0 <= i <= *uid_len,
                        out@ == uid@.take(i as int),
                    decreases *uid_len - i,
                {
                    out.push(uid[i]);
                    i = i + 1;
                    assert(uid@.take(i as int) == uid@.take(i - 1) + seq![uid@[i - 1]]);
                }
                Ok(out)
            }
        },
        Ok(SelectedTarget::Other) => Err(CardError::UnsupportedCard),
        Err(_) => Err(CardError::UnknownError),
    }
}

} // verus!
