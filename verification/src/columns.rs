//! The columns of a reading, and how a header names them: the six fields of
//! a stored reading have fixed names, and a reading is found in a row, or in
//! the members of an object, by those names and not by position.

use vstd::prelude::*;
use crate::text::same_text;

verus! {

/// The columns of a reading.
#[derive(Clone, Copy, Debug, PartialEq, Eq, Structural)]
pub enum Column {
    Id,
    MicroMeter10,
    MicroMeter60,
    MicroMeter180,
    MicroMeter500,
    Time,
}

impl Column {
    /// The name that a header gives the column.
    pub open spec fn name(self) -> Seq<char> {
        match self {
            Column::Id => "id"@,
            Column::MicroMeter10 => "micro_meter_10"@,
            Column::MicroMeter60 => "micro_meter_60"@,
            Column::MicroMeter180 => "micro_meter_180"@,
            Column::MicroMeter500 => "micro_meter_500"@,
            Column::Time => "time"@,
        }
    }

    /// The second name under which a count is accepted: the spelling that
    /// earlier writers used, kept as they wrote it.
    pub open spec fn alias(self) -> Option<Seq<char>> {
        match self {
            Column::Id => None,
            Column::MicroMeter10 => Some("mircoMeter10"@),
            Column::MicroMeter60 => Some("mircoMeter60"@),
            Column::MicroMeter180 => Some("mircoMeter180"@),
            Column::MicroMeter500 => Some("mircoMeter500"@),
            Column::Time => None,
        }
    }

    /// `text` is the column's name or its alias.
    pub open spec fn is_named_by(self, text: Seq<char>) -> bool {
        text == self.name() || Some(text) == self.alias()
    }

    /// The column's name.
    pub fn title(self) -> (title: &'static str)
        ensures
            title@ == self.name(),
    {
        match self {
            Column::Id => "id",
            Column::MicroMeter10 => "micro_meter_10",
            Column::MicroMeter60 => "micro_meter_60",
            Column::MicroMeter180 => "micro_meter_180",
            Column::MicroMeter500 => "micro_meter_500",
            Column::Time => "time",
        }
    }

    fn second_title(self) -> (title: Option<&'static str>)
        ensures
            title is Some <==> self.alias() is Some,
            title matches Some(text) ==> Some(text@) == self.alias(),
    {
        match self {
            Column::Id => None,
            Column::MicroMeter10 => Some("mircoMeter10"),
            Column::MicroMeter60 => Some("mircoMeter60"),
            Column::MicroMeter180 => Some("mircoMeter180"),
            Column::MicroMeter500 => Some("mircoMeter500"),
            Column::Time => None,
        }
    }

    /// Whether `text` names the column.
    pub fn names(self, text: &str) -> (named: bool)
        ensures
            named == self.is_named_by(text@),
    {
        if same_text(text, self.title()) {
            true
        } else {
            match self.second_title() {
                Some(second) => same_text(text, second),
                None => false,
            }
        }
    }
}

/// The header names `column` at `at` and nowhere else.
pub open spec fn names_once(header: Seq<Seq<char>>, column: Column, at: int) -> bool {
    &&& 0 <= at < header.len()
    &&& column.is_named_by(header[at])
    &&& forall|other: int|
        0 <= other < header.len() && column.is_named_by(#[trigger] header[other]) ==> other == at
}

/// Where the header has `column`: the place of the one cell that names it,
/// or `None` where none does or more than one.
pub open spec fn column_place(header: Seq<Seq<char>>, column: Column) -> Option<int> {
    if exists|at: int| names_once(header, column, at) {
        Some(choose|at: int| names_once(header, column, at))
    } else {
        None
    }
}

/// Two texts name the same columns.
pub open spec fn name_alike(one: Seq<char>, other: Seq<char>) -> bool {
    forall|column: Column| #[trigger] column.is_named_by(one) == column.is_named_by(other)
}

/// A name or an alias names its own column and no other.
pub proof fn lemma_a_name_names_one_column(column: Column, other: Column)
    ensures
        other.is_named_by(column.name()) == (other == column),
        column.alias() matches Some(alias) ==> other.is_named_by(alias) == (other == column),
{
    reveal_strlit("id");
    reveal_strlit("micro_meter_10");
    reveal_strlit("micro_meter_60");
    reveal_strlit("micro_meter_180");
    reveal_strlit("micro_meter_500");
    reveal_strlit("time");
    reveal_strlit("mircoMeter10");
    reveal_strlit("mircoMeter60");
    reveal_strlit("mircoMeter180");
    reveal_strlit("mircoMeter500");
    let ten = Column::MicroMeter10;
    let sixty = Column::MicroMeter60;
    let one_eighty = Column::MicroMeter180;
    let five_hundred = Column::MicroMeter500;
    assert(Column::Id.name().len() == 2 && Column::Time.name().len() == 4);
    assert(ten.name().len() == 14 && sixty.name().len() == 14);
    assert(one_eighty.name().len() == 15 && five_hundred.name().len() == 15);
    assert(ten.name()[12] == '1' && sixty.name()[12] == '6');
    assert(one_eighty.name()[12] == '1' && five_hundred.name()[12] == '5');
    assert(ten.alias()->Some_0.len() == 12 && sixty.alias()->Some_0.len() == 12);
    assert(one_eighty.alias()->Some_0.len() == 13 && five_hundred.alias()->Some_0.len() == 13);
    assert(ten.alias()->Some_0[10] == '1' && sixty.alias()->Some_0[10] == '6');
    assert(one_eighty.alias()->Some_0[10] == '1' && five_hundred.alias()->Some_0[10] == '5');
}

/// The alias of a column names what its name does.
pub proof fn lemma_an_alias_is_as_good_as_the_name(column: Column)
    requires
        column.alias() is Some,
    ensures
        name_alike(column.alias()->Some_0, column.name()),
{
    assert forall|other: Column| #[trigger]
        other.is_named_by(column.alias()->Some_0) == other.is_named_by(column.name()) by {
        lemma_a_name_names_one_column(column, other);
    }
}

/// Headers whose cells name the same columns, place by place, have every
/// column at the same place.
pub proof fn lemma_alike_headers_place_alike(
    header: Seq<Seq<char>>,
    renamed: Seq<Seq<char>>,
    column: Column,
)
    requires
        header.len() == renamed.len(),
        forall|at: int| 0 <= at < header.len() ==> name_alike(#[trigger] renamed[at], header[at]),
    ensures
        column_place(renamed, column) == column_place(header, column),
{
    assert forall|at: int| names_once(renamed, column, at) == names_once(header, column, at) by {
        assert forall|other: int| 0 <= other < header.len() implies column.is_named_by(
            #[trigger] renamed[other],
        ) == column.is_named_by(header[other]) by {
            assert(name_alike(renamed[other], header[other]));
        }
        if names_once(header, column, at) {
            assert(names_once(renamed, column, at));
        }
        if names_once(renamed, column, at) {
            assert forall|other: int|
                0 <= other < header.len() && column.is_named_by(
                    #[trigger] header[other],
                ) implies other == at by {
                assert(column.is_named_by(renamed[other]));
            }
            assert(names_once(header, column, at));
        }
    }
    if exists|at: int| names_once(header, column, at) {
        let here = choose|at: int| names_once(header, column, at);
        let there = choose|at: int| names_once(renamed, column, at);
        assert(names_once(renamed, column, here));
        assert(names_once(header, column, there));
    }
}

/// Finds the place of `column` in a header.
pub fn place_of(header: &Vec<String>, column: Column) -> (place: Option<usize>)
    ensures
        place is Some <==> column_place(header.deep_view(), column) is Some,
        place matches Some(at) ==> column_place(header.deep_view(), column) == Some(at as int),
{
    let ghost cells = header.deep_view();
    let mut found: Option<usize> = None;
    let mut at: usize = 0;
    while at < header.len()
        invariant
            at <= header.len(),
            cells == header.deep_view(),
            found matches Some(first) ==> first < at && column.is_named_by(cells[first as int]),
            forall|i: int|
                0 <= i < at && column.is_named_by(#[trigger] cells[i]) ==> found == Some(
                    i as usize,
                ),
        decreases header.len() - at,
    {
        assert(cells[at as int] == header[at as int]@);
        if column.names(header[at].as_str()) {
            if found.is_some() {
                return None;
            }
            found = Some(at);
        }
        at += 1;
    }
    proof {
        if let Some(first) = found {
            assert(names_once(cells, column, first as int));
        }
    }
    found
}

} // verus!
