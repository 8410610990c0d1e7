//! Rows of the `pdu` table: the room's timeline.

use ruma::events::pdu::RoomV3Pdu;
use vstd::prelude::*;
use vstd::string::*;

verus! {

/// A row of the `pdu` table: an event id and the event (a PDU) as JSON.
#[derive(Debug)]
pub struct Model {
    pub pdu_id: String,
    pub pdu: String,
}

/// Declares `ruma::events::pdu::RoomV3Pdu`, a stored event read back from
/// its JSON; Verus sees nothing inside it.
#[verifier::external_type_specification]
#[verifier::external_body]
pub struct ExRoomV3Pdu(RoomV3Pdu);

/// Whether `serde_json` reads `json` as a `RoomV3Pdu`.
pub uninterp spec fn is_pdu_json(json: Seq<char>) -> bool;

/// The event that `serde_json` reads from `json`, when it reads one.
pub uninterp spec fn pdu_of_json(json: Seq<char>) -> RoomV3Pdu;

/// The JSON text that `serde_json` writes for `pdu`, when it writes one.
pub uninterp spec fn json_of_pdu(pdu: RoomV3Pdu) -> Seq<char>;

/// Reads `json` with `serde_json::from_str::<RoomV3Pdu>`. The contract claims
/// that an event comes back exactly when the named predicate holds of the
/// text, that it is the named event of the text, and that empty text is never
/// an event (serde_json refuses empty input).
#[verifier::external_body]
fn parse_pdu(json: &str) -> (r: Option<RoomV3Pdu>)
    ensures
        r is Some <==> is_pdu_json(json@),
        r matches Some(p) ==> p == pdu_of_json(json@),
        json@.len() == 0 ==> r is None,
{
    serde_json::from_str::<RoomV3Pdu>(json).ok()
}

/// Writes `pdu` with `serde_json::to_string`. The contract claims that text
/// always comes back, and that it is the named JSON of the event. serde_json
/// documents that `to_string` fails only when a `Serialize` impl fails or a
/// map has non-string keys; `RoomV3Pdu` derives `Serialize` over identifiers,
/// strings, integers, raw JSON and string-keyed maps, so neither happens.
#[verifier::external_body]
fn pdu_to_json(pdu: &RoomV3Pdu) -> (r: Option<String>)
    ensures
        r is Some,
        r matches Some(t) ==> t@ == json_of_pdu(*pdu),
{
    serde_json::to_string(pdu).ok()
}

/// A stored row that does not hold a PDU.
#[derive(Clone, Copy, Debug, PartialEq, Eq, Structural)]
pub enum PduError {
    /// The row's text is not the JSON of a PDU.
    CorruptRow,
}

/// The row that stores the PDU `pdu_json` under the event id `pdu_id`.
pub fn pdu_row(pdu_id: &str, pdu_json: String) -> (r: Model)
    ensures
        r.pdu_id@ == pdu_id@,
        r.pdu@ == pdu_json@,
{
    Model { pdu_id: String::from_str(pdu_id), pdu: pdu_json }
}

/// The row that stores the event `pdu` under the event id `pdu_id`: the id,
/// and the event written as JSON.
pub fn pdu_row_of(pdu_id: &str, pdu: &RoomV3Pdu) -> (r: Model)
    ensures
        r.pdu_id@ == pdu_id@,
        r.pdu@ == json_of_pdu(*pdu),
{
    match pdu_to_json(pdu) {
        Some(json) => pdu_row(pdu_id, json),
        None => {
            proof {
                assert(false);
            }
            pdu_row(pdu_id, String::new())
        },
    }
}

/// Reads the PDU stored in a row, if there is a row: nothing for no row, the
/// event that the row's text is the JSON of, and `CorruptRow` when the text
/// is not the JSON of an event.
pub fn pdu_from_row(row: Option<Model>) -> (r: Result<Option<RoomV3Pdu>, PduError>)
    ensures
        match row {
            None => r matches Ok(None),
            Some(m) => {
                &&& (r is Ok <==> is_pdu_json(m.pdu@))
                &&& (r matches Ok(p) ==> p is Some)
                &&& (r matches Ok(Some(p)) ==> p == pdu_of_json(m.pdu@))
                &&& (r matches Err(e) ==> e == PduError::CorruptRow)
            },
        },
{
    match row {
        None => Ok(None),
        Some(m) => match parse_pdu(m.pdu.as_str()) {
            Some(pdu) => Ok(Some(pdu)),
            None => Err(PduError::CorruptRow),
        },
    }
}

} // verus!
