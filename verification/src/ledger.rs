//! The champion ledger and the names under which a run keeps its files.
use vstd::prelude::*;
use vstd::string::StringExecFns;
use crate::text::{
    padded, padded_reads_back, parse_i32, parse_i32_spec, push_padded, push_signed, signed_padded,
    signed_reads_back,
};

verus! {

/// One row of the ledger: the champion of a generation and its wins against
/// the champions before it.
#[derive(Clone, Copy, Debug, PartialEq, Eq, Structural)]
pub struct ChampionRecord {
    pub epoch: i32,
    pub index: usize,
    pub wins: i32,
}

/// Why a ledger row cannot be read.
#[derive(Clone, Copy, Debug, PartialEq, Eq, Structural)]
pub enum LedgerError {
    /// The row has fewer than three fields.
    MissingField,
    /// A field is no number, or a number that no record can hold.
    InvalidNumber,
}

/// A calendar date.
#[derive(Clone, Copy, Debug, PartialEq, Eq, Structural)]
pub struct Date {
    pub year: i32,
    pub month: u32,
    pub day: u32,
}

/// The calendar date, in universal time, of the moment `secs` seconds after
/// the start of 1970; `None` for a moment beyond the calendar's years.
pub uninterp spec fn utc_date(secs: i64) -> Option<Date>;

/// Calls `chrono::DateTime::from_timestamp` and reads year, month and day
/// with `chrono::Datelike`.
#[verifier::external_body]
pub(crate) fn date_of(secs: i64) -> (date: Option<Date>)
    ensures
        date == utc_date(secs),
{
    match chrono::DateTime::from_timestamp(secs, 0) {
        Some(t) => Some(Date {
            year: chrono::Datelike::year(&t),
            month: chrono::Datelike::month(&t),
            day: chrono::Datelike::day(&t),
        }),
        None => None,
    }
}

/// The file name of a checkpoint: generation and member, each filled with
/// zeros to four digits so that names sort as the numbers do.
pub open spec fn checkpoint_name_spec(epoch: i32, index: usize) -> Seq<char> {
    signed_padded(epoch as int, 4) + "_"@ + padded(index as nat, 4) + ".safetensors"@
}

/// The directory of a run's files under `root`, named by the date.
pub open spec fn log_dir_spec(root: Seq<char>, year: i32, month: u32, day: u32) -> Seq<char> {
    root + "/logs/"@ + signed_padded(year as int, 0) + "_"@ + padded(month as nat, 2) + "_"@ + padded(
        day as nat,
        2,
    )
}

/// The three fields of a ledger row, as they are written.
pub open spec fn row_spec(record: ChampionRecord) -> Seq<Seq<char>> {
    seq![
        signed_padded(record.epoch as int, 0),
        padded(record.index as nat, 0),
        signed_padded(record.wins as int, 0),
    ]
}

/// What reading a ledger row gives.
pub open spec fn parse_row_spec(fields: Seq<Seq<char>>) -> Result<ChampionRecord, LedgerError> {
    if fields.len() < 3 {
        Err(LedgerError::MissingField)
    } else {
        match (parse_i32_spec(fields[0]), parse_i32_spec(fields[1]), parse_i32_spec(fields[2])) {
            (Some(epoch), Some(index), Some(wins)) => if index >= 0 {
                Ok(ChampionRecord { epoch, index: index as usize, wins })
            } else {
                Err(LedgerError::InvalidNumber)
            },
            _ => Err(LedgerError::InvalidNumber),
        }
    }
}

/// A ledger row reads back as the record that it was written from, for every
/// champion index that an `i32` holds.
pub proof fn row_reads_back(record: ChampionRecord)
    requires
        record.index <= i32::MAX,
    ensures
        parse_row_spec(row_spec(record)) == Ok::<ChampionRecord, LedgerError>(record),
{
    signed_reads_back(record.epoch as int, 0);
    padded_reads_back(record.index as nat, 0);
    signed_reads_back(record.wins as int, 0);
}

/// The file name of the checkpoint of member `index` in generation `epoch`.
pub fn checkpoint_name(epoch: i32, index: usize) -> (name: String)
    ensures
        name@ == checkpoint_name_spec(epoch, index),
{
    let mut name = String::new();
    push_signed(&mut name, epoch, 4);
    name.append("_");
    push_padded(&mut name, index as u64, 4);
    name.append(".safetensors");
    name
}

/// The path of a checkpoint in the directory `log_dir`.
pub fn checkpoint_path(log_dir: &str, epoch: i32, index: usize) -> (path: String)
    ensures
        path@ == log_dir@ + "/"@ + checkpoint_name_spec(epoch, index),
{
    let mut path = String::from_str(log_dir);
    path.append("/");
    let name = checkpoint_name(epoch, index);
    path.append(name.as_str());
    assert(path@ =~= log_dir@ + "/"@ + checkpoint_name_spec(epoch, index));
    path
}

/// The path of the ledger in the directory `log_dir`.
pub fn champs_file(log_dir: &str) -> (path: String)
    ensures
        path@ == log_dir@ + "/champs.csv"@,
{
    let mut path = String::from_str(log_dir);
    path.append("/champs.csv");
    path
}

/// The directory of a run that starts on the given date.
pub fn log_dir_name(root: &str, year: i32, month: u32, day: u32) -> (dir: String)
    ensures
        dir@ == log_dir_spec(root@, year, month, day),
{
    let mut dir = String::from_str(root);
    dir.append("/logs/");
    push_signed(&mut dir, year, 0);
    dir.append("_");
    push_padded(&mut dir, month as u64, 2);
    dir.append("_");
    push_padded(&mut dir, day as u64, 2);
    dir
}

/// The directory of a run that starts `now` seconds after the start of
/// 1970, named by that moment's date in universal time. `None` where the
/// moment has no date.
pub fn run_dir(root: &str, now: i64) -> (dir: Option<String>)
    ensures
        dir is Some <==> utc_date(now) is Some,
        dir matches Some(d) ==> utc_date(now) matches Some(date) && d@ == log_dir_spec(
            root@,
            date.year,
            date.month,
            date.day,
        ),
{
    match date_of(now) {
        Some(date) => Some(log_dir_name(root, date.year, date.month, date.day)),
        None => None,
    }
}

/// The header row of the ledger.
pub fn ledger_header() -> (fields: Vec<String>)
    ensures
        fields@.len() == 3,
        fields@[0]@ == "Epoch"@,
        fields@[1]@ == "Champ index"@,
        fields@[2]@ == "Wins"@,
{
    let mut fields: Vec<String> = Vec::new();
    fields.push(String::from_str("Epoch"));
    fields.push(String::from_str("Champ index"));
    fields.push(String::from_str("Wins"));
    fields
}

/// The fields of the ledger row of `record`.
pub fn ledger_row(record: &ChampionRecord) -> (fields: Vec<String>)
    ensures
        fields@.len() == 3,
        forall|i: int| 0 <= i < 3 ==> (#[trigger] fields@[i])@ == row_spec(*record)[i],
{
    let mut epoch = String::new();
    push_signed(&mut epoch, record.epoch, 0);
    let mut index = String::new();
    push_padded(&mut index, record.index as u64, 0);
    let mut wins = String::new();
    push_signed(&mut wins, record.wins, 0);
    let mut fields: Vec<String> = Vec::new();
    fields.push(epoch);
    fields.push(index);
    fields.push(wins);
    fields
}

/// The views of a row's fields.
pub open spec fn field_views(fields: Seq<String>) -> Seq<Seq<char>> {
    Seq::new(fields.len(), |i: int| fields[i]@)
}

/// Reads a ledger row back: generation, champion and wins from the first
/// three fields.
pub fn parse_row(fields: &Vec<String>) -> (record: Result<ChampionRecord, LedgerError>)
    ensures
        record == parse_row_spec(field_views(fields@)),
{
    if fields.len() < 3 {
        return Err(LedgerError::MissingField);
    }
    let epoch = parse_i32(fields[0].as_str());
    let index = parse_i32(fields[1].as_str());
    let wins = parse_i32(fields[2].as_str());
    match (epoch, index, wins) {
        (Some(epoch), Some(index), Some(wins)) => {
            if index >= 0 {
                Ok(ChampionRecord { epoch, index: index as usize, wins })
            } else {
                Err(LedgerError::InvalidNumber)
            }
        },
        _ => Err(LedgerError::InvalidNumber),
    }
}

/// The checkpoint that a ledger row points to: the file of the champion
/// that the row records, in the directory `log_dir`.
pub open spec fn opponent_path_spec(log_dir: Seq<char>, row: Seq<String>) -> Result<Seq<char>, LedgerError> {
    match parse_row_spec(field_views(row)) {
        Ok(record) => Ok(log_dir + "/"@ + checkpoint_name_spec(record.epoch, record.index)),
        Err(e) => Err(e),
    }
}

/// The checkpoint of the champion that a ledger row records, in the
/// directory `log_dir`; the row's error where it cannot be read.
pub fn opponent_path(log_dir: &str, row: &Vec<String>) -> (path: Result<String, LedgerError>)
    ensures
        path is Ok <==> opponent_path_spec(log_dir@, row@) is Ok,
        path matches Ok(p) ==> opponent_path_spec(log_dir@, row@) == Ok::<Seq<char>, LedgerError>(p@),
        path matches Err(e) ==> opponent_path_spec(log_dir@, row@) == Err::<Seq<char>, LedgerError>(e),
{
    match parse_row(row) {
        Ok(record) => Ok(checkpoint_path(log_dir, record.epoch, record.index)),
        Err(e) => Err(e),
    }
}

} // verus!
