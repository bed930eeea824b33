//! The values that cross the boundary to the table store: cells, rows, and
//! the readers that a record codec is built from.

use vstd::prelude::*;
use crate::text::{opt_text, opt_texts, texts};

verus! {

/// One cell of a row, or one bind parameter of a statement.
#[derive(Clone, Debug, PartialEq, Eq)]
pub enum SqlValue {
    Null,
    Int(i64),
    Text(String),
    TextArray(Vec<String>),
    /// An instant, in microseconds since the Unix epoch.
    Timestamp(i64),
}

/// The mathematical content of a [`SqlValue`].
pub enum Datum {
    Null,
    Int(i64),
    Text(Seq<char>),
    TextArray(Seq<Seq<char>>),
    Timestamp(i64),
}

impl View for SqlValue {
    type V = Datum;

    open spec fn view(&self) -> Datum {
        match self {
            SqlValue::Null => Datum::Null,
            SqlValue::Int(n) => Datum::Int(*n),
            SqlValue::Text(s) => Datum::Text(s@),
            SqlValue::TextArray(v) => Datum::TextArray(texts(v@)),
            SqlValue::Timestamp(t) => Datum::Timestamp(*t),
        }
    }
}

/// The content of a row, cell by cell.
pub open spec fn data(row: Seq<SqlValue>) -> Seq<Datum> {
    Seq::new(row.len(), |i: int| row[i]@)
}

/// The content of a list of rows.
pub open spec fn table(rows: Seq<Vec<SqlValue>>) -> Seq<Seq<Datum>> {
    Seq::new(rows.len(), |i: int| data(rows[i]@))
}

/// Why a row could not be decoded; each variant names the column by its
/// position in the row.
#[derive(Clone, Copy, Debug, PartialEq, Eq, Structural)]
pub enum DecodeError {
    /// The row is too short to hold the mandatory column.
    Missing(usize),
    /// The mandatory column is null.
    Null(usize),
    /// The mandatory column holds a value of another kind.
    WrongType(usize),
}

/// The cell for an optional text.
pub open spec fn text_or_null(text: Option<Seq<char>>) -> Datum {
    match text {
        Some(s) => Datum::Text(s),
        None => Datum::Null,
    }
}

/// The cell for an optional list of texts.
pub open spec fn texts_or_null(items: Option<Seq<Seq<char>>>) -> Datum {
    match items {
        Some(v) => Datum::TextArray(v),
        None => Datum::Null,
    }
}

/// The cell for an optional instant.
pub open spec fn time_or_null(instant: Option<i64>) -> Datum {
    match instant {
        Some(t) => Datum::Timestamp(t),
        None => Datum::Null,
    }
}

/// The integer in the mandatory column `i`.
pub open spec fn int_at(row: Seq<Datum>, i: usize) -> Result<i64, DecodeError> {
    if i >= row.len() {
        Err(DecodeError::Missing(i))
    } else {
        match row[i as int] {
            Datum::Int(n) => Ok(n),
            Datum::Null => Err(DecodeError::Null(i)),
            _ => Err(DecodeError::WrongType(i)),
        }
    }
}

/// The text in the mandatory column `i`.
pub open spec fn text_at(row: Seq<Datum>, i: usize) -> Result<Seq<char>, DecodeError> {
    if i >= row.len() {
        Err(DecodeError::Missing(i))
    } else {
        match row[i as int] {
            Datum::Text(s) => Ok(s),
            Datum::Null => Err(DecodeError::Null(i)),
            _ => Err(DecodeError::WrongType(i)),
        }
    }
}

/// The text in the optional column `i`: absent when the row is too short,
/// the cell is null or it holds no text.
pub open spec fn opt_text_at(row: Seq<Datum>, i: usize) -> Option<Seq<char>> {
    if i >= row.len() {
        None
    } else {
        match row[i as int] {
            Datum::Text(s) => Some(s),
            _ => None,
        }
    }
}

/// The list of texts in the optional column `i`.
pub open spec fn opt_texts_at(row: Seq<Datum>, i: usize) -> Option<Seq<Seq<char>>> {
    if i >= row.len() {
        None
    } else {
        match row[i as int] {
            Datum::TextArray(v) => Some(v),
            _ => None,
        }
    }
}

/// The instant in the optional column `i`.
pub open spec fn opt_time_at(row: Seq<Datum>, i: usize) -> Option<i64> {
    if i >= row.len() {
        None
    } else {
        match row[i as int] {
            Datum::Timestamp(t) => Some(t),
            _ => None,
        }
    }
}

/// The content of a text that was read from a mandatory column.
pub open spec fn text_read(result: Result<String, DecodeError>) -> Result<Seq<char>, DecodeError> {
    match result {
        Ok(s) => Ok(s@),
        Err(e) => Err(e),
    }
}

/// Copies a list of strings.
pub fn copy_texts(items: &Vec<String>) -> (copy: Vec<String>)
    ensures
        texts(copy@) == texts(items@),
{
    let mut copy: Vec<String> = Vec::new();
    let mut i: usize = 0;
    while i < items.len()
        invariant
            i <= items.len(),
            copy@.len() == i,
            forall|j: int| 0 <= j < i ==> copy@[j]@ == items@[j]@,
        decreases items.len() - i,
    {
        copy.push(items[i].clone());
        i += 1;
    }
    copy
}

/// Copies an optional string.
pub fn copy_opt_text(text: &Option<String>) -> (copy: Option<String>)
    ensures
        opt_text(copy) == opt_text(*text),
{
    match text {
        Some(s) => Some(s.clone()),
        None => None,
    }
}

/// Copies an optional list of strings.
pub fn copy_opt_texts(items: &Option<Vec<String>>) -> (copy: Option<Vec<String>>)
    ensures
        opt_texts(copy) == opt_texts(*items),
{
    match items {
        Some(v) => Some(copy_texts(v)),
        None => None,
    }
}

impl SqlValue {
    /// A copy with the same content.
    pub fn duplicate(&self) -> (copy: SqlValue)
        ensures
            copy@ == self@,
    {
        match self {
            SqlValue::Null => SqlValue::Null,
            SqlValue::Int(n) => SqlValue::Int(*n),
            SqlValue::Text(s) => SqlValue::Text(s.clone()),
            SqlValue::TextArray(v) => SqlValue::TextArray(copy_texts(v)),
            SqlValue::Timestamp(t) => SqlValue::Timestamp(*t),
        }
    }

    /// The cell for a text.
    pub fn text(text: &String) -> (cell: SqlValue)
        ensures
            cell@ == Datum::Text(text@),
    {
        SqlValue::Text(text.clone())
    }

    /// The cell for an optional text.
    pub fn opt_text(text: &Option<String>) -> (cell: SqlValue)
        ensures
            cell@ == text_or_null(opt_text(*text)),
    {
        match text {
            Some(s) => SqlValue::Text(s.clone()),
            None => SqlValue::Null,
        }
    }

    /// The cell for an optional list of texts.
    pub fn opt_texts(items: &Option<Vec<String>>) -> (cell: SqlValue)
        ensures
            cell@ == texts_or_null(opt_texts(*items)),
    {
        match items {
            Some(v) => SqlValue::TextArray(copy_texts(v)),
            None => SqlValue::Null,
        }
    }

    /// The cell for an optional instant.
    pub fn opt_time(instant: Option<i64>) -> (cell: SqlValue)
        ensures
            cell@ == time_or_null(instant),
    {
        match instant {
            Some(t) => SqlValue::Timestamp(t),
            None => SqlValue::Null,
        }
    }
}

/// Copies a row.
pub fn copy_row(row: &Vec<SqlValue>) -> (copy: Vec<SqlValue>)
    ensures
        data(copy@) == data(row@),
{
    let mut copy: Vec<SqlValue> = Vec::new();
    let mut i: usize = 0;
    while i < row.len()
        invariant
            i <= row.len(),
            copy@.len() == i,
            forall|j: int| 0 <= j < i ==> copy@[j]@ == row@[j]@,
        decreases row.len() - i,
    {
        copy.push(row[i].duplicate());
        i += 1;
    }
    copy
}

/// Reads the integer in the mandatory column `i`.
pub fn read_int(row: &Vec<SqlValue>, i: usize) -> (result: Result<i64, DecodeError>)
    ensures
        result == int_at(data(row@), i),
{
    if i >= row.len() {
        return Err(DecodeError::Missing(i));
    }
    match &row[i] {
        SqlValue::Int(n) => Ok(*n),
        SqlValue::Null => Err(DecodeError::Null(i)),
        _ => Err(DecodeError::WrongType(i)),
    }
}

/// Reads the text in the mandatory column `i`.
pub fn read_text(row: &Vec<SqlValue>, i: usize) -> (result: Result<String, DecodeError>)
    ensures
        text_read(result) == text_at(data(row@), i),
{
    if i >= row.len() {
        return Err(DecodeError::Missing(i));
    }
    match &row[i] {
        SqlValue::Text(s) => Ok(s.clone()),
        SqlValue::Null => Err(DecodeError::Null(i)),
        _ => Err(DecodeError::WrongType(i)),
    }
}

/// Reads the text in the optional column `i`.
pub fn read_opt_text(row: &Vec<SqlValue>, i: usize) -> (result: Option<String>)
    ensures
        opt_text(result) == opt_text_at(data(row@), i),
{
    if i >= row.len() {
        return None;
    }
    match &row[i] {
        SqlValue::Text(s) => Some(s.clone()),
        _ => None,
    }
}

/// Reads the list of texts in the optional column `i`.
pub fn read_opt_texts(row: &Vec<SqlValue>, i: usize) -> (result: Option<Vec<String>>)
    ensures
        opt_texts(result) == opt_texts_at(data(row@), i),
{
    if i >= row.len() {
        return None;
    }
    match &row[i] {
        SqlValue::TextArray(v) => Some(copy_texts(v)),
        _ => None,
    }
}

/// Reads the instant in the optional column `i`.
pub fn read_opt_time(row: &Vec<SqlValue>, i: usize) -> (result: Option<i64>)
    ensures
        result == opt_time_at(data(row@), i),
{
    if i >= row.len() {
        return None;
    }
    match &row[i] {
        SqlValue::Timestamp(t) => Some(*t),
        _ => None,
    }
}

} // verus!
