//! The wire form of a submitted reading: a JSON object that gives each of
//! the four counts under its name.

use vstd::prelude::*;
use crate::columns::column_place;
use crate::columns::lemma_alike_headers_place_alike;
use crate::columns::name_alike;
use crate::columns::place_of;
use crate::columns::Column;
use crate::model::DisplayError;
use crate::model::Failure;
use crate::model::NewParticleCount;

verus! {

/// The error of the `serde_json` crate.
#[verifier::external_type_specification]
#[verifier::external_body]
pub struct ExJsonError(serde_json::Error);

/// The members of the JSON object that a text holds: their names, and for
/// each the number that it gives where that is an integer of 0 to
/// `u64::MAX`; `None` where the text is no JSON object.
pub uninterp spec fn json_members(text: Seq<char>) -> Option<(Seq<Seq<char>>, Seq<Option<u64>>)>;

/// `serde_json::from_str` for a `serde_json::Map`, which takes a JSON object
/// and nothing else, with each member's value read by
/// `serde_json::Value::as_u64`; names and numbers are handed out side by
/// side, one of each for every member. They are a function of the text
/// alone.
#[verifier::external_body]
fn json_object(text: &str) -> (members: Result<(Vec<String>, Vec<Option<u64>>), serde_json::Error>)
    ensures
        members matches Ok(found) ==> found.0.len() == found.1.len() && json_members(text@)
            == Some((found.0.deep_view(), found.1.deep_view())),
        members is Err ==> json_members(text@) is None,
{
    let object: Result<serde_json::Map<String, serde_json::Value>, _> = serde_json::from_str(text);
    object.map(|members| members.into_iter().map(|(name, value)| (name, value.as_u64())).unzip())
}

/// The `Display` of `serde_json::Error`. Nothing is stated of the words.
#[verifier::external_body]
fn json_error_text(error: &serde_json::Error) -> (text: String) {
    error.to_string()
}

/// Why the members of an object are not a submitted reading.
#[derive(Clone, Copy, Debug, PartialEq, Eq, Structural)]
pub enum PayloadFault {
    /// No member gives the count, or one does under its name and another
    /// under its alias.
    Unnamed(Column),
    /// The member gives something else than an integer of 0 to `u64::MAX`.
    NotACount(Column),
}

impl PayloadFault {
    /// The words that tell the fault.
    pub open spec fn words(self) -> Seq<char> {
        match self {
            PayloadFault::Unnamed(column) => "no single member is named "@ + column.name(),
            PayloadFault::NotACount(column) => column.name() + ": not an unsigned 64-bit integer"@,
        }
    }

    /// The fault in words.
    pub fn message(self) -> (message: String)
        ensures
            message@ == self.words(),
    {
        match self {
            PayloadFault::Unnamed(column) => {
                let mut message = String::from_str("no single member is named ");
                message.append(column.title());
                message
            },
            PayloadFault::NotACount(column) => {
                let mut message = String::from_str(column.title());
                message.append(": not an unsigned 64-bit integer");
                message
            },
        }
    }
}

/// The count that the members give for `column`: the number of the one
/// member that bears the column's name or its alias.
pub open spec fn count_member(
    names: Seq<Seq<char>>,
    numbers: Seq<Option<u64>>,
    column: Column,
) -> Result<u64, PayloadFault> {
    match column_place(names, column) {
        None => Err(PayloadFault::Unnamed(column)),
        Some(place) => if place < numbers.len() && numbers[place] is Some {
            Ok(numbers[place]->Some_0)
        } else {
            Err(PayloadFault::NotACount(column))
        },
    }
}

/// The reading that the members of an object give. All four counts must be
/// given; members of other names are passed over. The counts are taken from
/// the smallest threshold up, and the first that cannot be had decides the
/// fault.
pub open spec fn decode_counts(names: Seq<Seq<char>>, numbers: Seq<Option<u64>>) -> Result<
    NewParticleCount,
    PayloadFault,
> {
    let micro_meter_10 = count_member(names, numbers, Column::MicroMeter10);
    let micro_meter_60 = count_member(names, numbers, Column::MicroMeter60);
    let micro_meter_180 = count_member(names, numbers, Column::MicroMeter180);
    let micro_meter_500 = count_member(names, numbers, Column::MicroMeter500);
    if micro_meter_10 is Err {
        Err(micro_meter_10->Err_0)
    } else if micro_meter_60 is Err {
        Err(micro_meter_60->Err_0)
    } else if micro_meter_180 is Err {
        Err(micro_meter_180->Err_0)
    } else if micro_meter_500 is Err {
        Err(micro_meter_500->Err_0)
    } else {
        Ok(
            NewParticleCount {
                micro_meter_10: micro_meter_10->Ok_0,
                micro_meter_60: micro_meter_60->Ok_0,
                micro_meter_180: micro_meter_180->Ok_0,
                micro_meter_500: micro_meter_500->Ok_0,
            },
        )
    }
}

/// A member may give a count under its alias: the members give under it
/// what they give under the name.
pub proof fn lemma_aliases_change_nothing(
    names: Seq<Seq<char>>,
    renamed: Seq<Seq<char>>,
    numbers: Seq<Option<u64>>,
)
    requires
        names.len() == renamed.len(),
        forall|at: int| 0 <= at < names.len() ==> name_alike(#[trigger] renamed[at], names[at]),
    ensures
        decode_counts(renamed, numbers) == decode_counts(names, numbers),
{
    lemma_alike_headers_place_alike(names, renamed, Column::MicroMeter10);
    lemma_alike_headers_place_alike(names, renamed, Column::MicroMeter60);
    lemma_alike_headers_place_alike(names, renamed, Column::MicroMeter180);
    lemma_alike_headers_place_alike(names, renamed, Column::MicroMeter500);
}

fn read_member(names: &Vec<String>, numbers: &Vec<Option<u64>>, column: Column) -> (count: Result<
    u64,
    PayloadFault,
>)
    ensures
        count == count_member(names.deep_view(), numbers.deep_view(), column),
{
    match place_of(names, column) {
        None => Err(PayloadFault::Unnamed(column)),
        Some(place) => {
            if place < numbers.len() {
                assert(numbers.deep_view()[place as int] == numbers[place as int]);
                match numbers[place] {
                    Some(count) => Ok(count),
                    None => Err(PayloadFault::NotACount(column)),
                }
            } else {
                Err(PayloadFault::NotACount(column))
            }
        },
    }
}

/// Reads the members of an object as a submitted reading.
pub fn read_counts(names: &Vec<String>, numbers: &Vec<Option<u64>>) -> (counts: Result<
    NewParticleCount,
    PayloadFault,
>)
    ensures
        counts == decode_counts(names.deep_view(), numbers.deep_view()),
{
    let micro_meter_10 = match read_member(names, numbers, Column::MicroMeter10) {
        Ok(count) => count,
        Err(fault) => return Err(fault),
    };
    let micro_meter_60 = match read_member(names, numbers, Column::MicroMeter60) {
        Ok(count) => count,
        Err(fault) => return Err(fault),
    };
    let micro_meter_180 = match read_member(names, numbers, Column::MicroMeter180) {
        Ok(count) => count,
        Err(fault) => return Err(fault),
    };
    let micro_meter_500 = match read_member(names, numbers, Column::MicroMeter500) {
        Ok(count) => count,
        Err(fault) => return Err(fault),
    };
    Ok(NewParticleCount::new(micro_meter_10, micro_meter_60, micro_meter_180, micro_meter_500))
}

/// The reading that a request body submits, or the words of what is wrong
/// with it; `None` as words where the body is no JSON object, of which the
/// words are not fixed.
pub open spec fn decode_payload(body: Seq<char>) -> Result<NewParticleCount, Option<Seq<char>>> {
    match json_members(body) {
        None => Err(None),
        Some((names, numbers)) => match decode_counts(names, numbers) {
            Ok(counts) => Ok(counts),
            Err(fault) => Err(Some(fault.words())),
        },
    }
}

/// Reads a request body as a submitted reading.
///
/// Fails with `Serde` where the body is no JSON object, and where its
/// members are not the four counts.
pub fn read_payload(body: &str) -> (counts: Result<NewParticleCount, DisplayError>)
    ensures
        match decode_payload(body@) {
            Ok(reading) => counts == Ok::<NewParticleCount, DisplayError>(reading),
            Err(Some(words)) => counts matches Err(failure) && failure@ == Failure::Serde(words),
            Err(None) => counts matches Err(failure) && failure@ is Serde,
        },
{
    match json_object(body) {
        Err(error) => Err(DisplayError::Serde(json_error_text(&error))),
        Ok((names, numbers)) => match read_counts(&names, &numbers) {
            Ok(reading) => Ok(reading),
            Err(fault) => Err(DisplayError::Serde(fault.message())),
        },
    }
}

} // verus!
