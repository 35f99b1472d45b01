//! Channels in a PostgreSQL table: the statements to send, and what the
//! engine's answers mean. Sending is left to the caller, who hands each
//! answer back as plain values.

use vstd::prelude::*;
use vstd::string::StringExecFns;

use crate::domain::channel::model::{Channel, ChannelView, DraftChannel};
use crate::domain::channel::repository::{channel_views, decoded, lookup_view};
use crate::domain::url::Url;
use crate::exception::{ErrorView, RepositoryError, StorageFailure, StorageFailureView};

verus! {

/// A statement with its parameters, in the order of `$1`, `$2`, and so on.
#[derive(Debug, PartialEq, Eq)]
pub struct Statement {
    pub sql: String,
    pub params: Vec<String>,
}

pub struct StatementView {
    pub sql: Seq<char>,
    pub params: Seq<Seq<char>>,
}

impl View for Statement {
    type V = StatementView;

    open spec fn view(&self) -> StatementView {
        StatementView { sql: self.sql@, params: self.params@.map_values(|param: String| param@) }
    }
}

/// A row of the table `channels` as the engine handed it over: each column
/// as text, or nothing where the row has no such column or the column holds
/// no text.
#[derive(Debug, PartialEq, Eq)]
pub struct ChannelRow {
    pub id: Option<String>,
    pub name: Option<String>,
    pub icon_url: Option<String>,
}

pub struct ChannelRowView {
    pub id: Option<Seq<char>>,
    pub name: Option<Seq<char>>,
    pub icon_url: Option<Seq<char>>,
}

/// The view of a column.
pub open spec fn column_view(column: Option<String>) -> Option<Seq<char>> {
    match column {
        Some(text) => Some(text@),
        None => None,
    }
}

impl View for ChannelRow {
    type V = ChannelRowView;

    open spec fn view(&self) -> ChannelRowView {
        ChannelRowView {
            id: column_view(self.id),
            name: column_view(self.name),
            icon_url: column_view(self.icon_url),
        }
    }
}

/// The views of `rows`, in order.
pub open spec fn row_views(rows: Seq<ChannelRow>) -> Seq<ChannelRowView> {
    rows.map_values(|row: ChannelRow| row@)
}

/// The failure to read the column `name` of a row.
pub open spec fn invalid_column(name: Seq<char>) -> ErrorView {
    ErrorView::DecodeFailed("invalid column `"@ + name + "`"@)
}

/// What a row is as a channel. The columns are read in the order `icon_url`,
/// `id`, `name`, and the first that cannot be read decides the failure; then
/// the icon's address has to be a URL.
pub open spec fn row_decoded(row: ChannelRowView) -> Result<ChannelView, ErrorView> {
    match (row.icon_url, row.id, row.name) {
        (None, _, _) => Err(invalid_column("icon_url"@)),
        (Some(_), None, _) => Err(invalid_column("id"@)),
        (Some(_), Some(_), None) => Err(invalid_column("name"@)),
        (Some(icon_url), Some(id), Some(name)) => decoded(ChannelView { id, name, icon_url }),
    }
}

/// The channel of a row that can be read, nothing for one that cannot.
pub open spec fn row_readable(row: ChannelRowView) -> Option<ChannelView> {
    match row_decoded(row) {
        Ok(channel) => Some(channel),
        Err(_) => None,
    }
}

/// The failure to read the column `name` of a row.
fn column_failure(name: &str) -> (error: RepositoryError)
    ensures
        error@ == invalid_column(name@),
{
    let words = String::from_str("invalid column `").concat(name).concat("`");
    RepositoryError::DecodeFailed(words)
}

impl<'a> TryFrom<&'a ChannelRow> for Channel {
    type Error = RepositoryError;

    /// Reads a row as a channel.
    fn try_from(value: &'a ChannelRow) -> (channel: Result<Channel, RepositoryError>)
        ensures
            match channel {
                Ok(read) => row_decoded(value@) == Ok::<ChannelView, ErrorView>(read@),
                Err(error) => row_decoded(value@) == Err::<ChannelView, ErrorView>(error@),
            },
    {
        let icon_url = match &value.icon_url {
            Some(text) => text.clone(),
            None => { return Err(column_failure("icon_url")); },
        };
        let id = match &value.id {
            Some(text) => text.clone(),
            None => { return Err(column_failure("id")); },
        };
        let name = match &value.name {
            Some(text) => text.clone(),
            None => { return Err(column_failure("name")); },
        };
        match Url::try_from(icon_url) {
            Ok(address) => Ok(Channel { id, name, icon_url: address }),
            Err(failure) => Err(RepositoryError::corrupt_data(&failure)),
        }
    }
}

impl<'a> vstd::std_specs::convert::TryFromSpecImpl<&'a ChannelRow> for Channel {
    /// `try_from` is described by its own contract.
    open spec fn obeys_try_from_spec() -> bool {
        false
    }

    open spec fn try_from_spec(value: &'a ChannelRow) -> Result<Channel, RepositoryError> {
        arbitrary()
    }
}

/// `row_readable` as a function value.
pub open spec fn readable() -> spec_fn(ChannelRowView) -> Option<ChannelView> {
    |row: ChannelRowView| row_readable(row)
}

/// The statement that looks a channel up by its identity.
pub open spec fn find_by_id_query(id: Seq<char>) -> StatementView {
    StatementView { sql: "SELECT * FROM channels WHERE id=$1;"@, params: seq![id] }
}

/// The statement that lists the channels whose name holds a pattern.
pub open spec fn search_by_name_query(pattern: Seq<char>) -> StatementView {
    StatementView { sql: "SELECT * FROM channels WHERE strpos(name, $1) > 0;"@, params: seq![pattern] }
}

/// The statement that inserts a draft.
pub open spec fn create_query(draft: ChannelView) -> StatementView {
    StatementView {
        sql: "INSERT INTO channels(id, name, icon_url) VALUES ($1, $2, $3);"@,
        params: seq![draft.id, draft.name, draft.icon_url],
    }
}

/// The view of what the engine answered to a lookup.
pub open spec fn lookup_outcome_view(outcome: Result<Option<ChannelRow>, StorageFailure>) -> Result<
    Option<ChannelRowView>,
    StorageFailureView,
> {
    match outcome {
        Err(failure) => Err(failure@),
        Ok(None) => Ok(None),
        Ok(Some(row)) => Ok(Some(row@)),
    }
}

/// The view of what the engine answered to a write.
pub open spec fn write_outcome_view(outcome: Result<u64, StorageFailure>) -> Result<
    u64,
    StorageFailureView,
> {
    match outcome {
        Err(failure) => Err(failure@),
        Ok(written) => Ok(written),
    }
}

/// The view of what a write came to.
pub open spec fn write_view(answer: Result<(), RepositoryError>) -> Result<(), ErrorView> {
    match answer {
        Ok(()) => Ok(()),
        Err(error) => Err(error@),
    }
}

/// What the answer to a lookup means: a failure of the engine means that
/// storage is not available, no row means absence, and a row is read.
pub open spec fn find_by_id_reading(
    outcome: Result<Option<ChannelRowView>, StorageFailureView>,
) -> Result<Option<ChannelView>, ErrorView> {
    match outcome {
        Err(_) => Err(ErrorView::StorageUnavailable),
        Ok(None) => Ok(None),
        Ok(Some(row)) => match row_decoded(row) {
            Ok(channel) => Ok(Some(channel)),
            Err(error) => Err(error),
        },
    }
}

/// What the answer to an insertion means: a failure of the engine is
/// passed on as a failed write or as storage that is not available, no row
/// written is a failed write, and a row written is success.
pub open spec fn create_reading(draft: ChannelView, outcome: Result<u64, StorageFailureView>) -> Result<
    (),
    ErrorView,
> {
    match outcome {
        Err(failure) => Err(RepositoryError::of_write_failure(failure)),
        Ok(written) => if written == 0 {
            Err(DraftChannel::insert_failure_of(draft))
        } else {
            Ok(())
        },
    }
}

pub fn find_by_id_statement(id: &str) -> (statement: Statement)
    ensures
        statement@ == find_by_id_query(id@),
{
    let mut params: Vec<String> = Vec::new();
    params.push(id.to_owned());
    let statement = Statement { sql: "SELECT * FROM channels WHERE id=$1;".to_owned(), params };
    assert(statement@.params =~= seq![id@]);
    statement
}

pub fn find_by_id_answer(outcome: Result<Option<ChannelRow>, StorageFailure>) -> (answer: Result<
    Option<Channel>,
    RepositoryError,
>)
    ensures
        lookup_view(answer) == find_by_id_reading(lookup_outcome_view(outcome)),
{
    match outcome {
        Err(_) => Err(RepositoryError::StorageUnavailable),
        Ok(None) => Ok(None),
        Ok(Some(row)) => match Channel::try_from(&row) {
            Ok(channel) => Ok(Some(channel)),
            Err(error) => Err(error),
        },
    }
}

pub fn search_by_name_statement(pattern: &str) -> (statement: Statement)
    ensures
        statement@ == search_by_name_query(pattern@),
{
    let mut params: Vec<String> = Vec::new();
    params.push(pattern.to_owned());
    let statement = Statement {
        sql: "SELECT * FROM channels WHERE strpos(name, $1) > 0;".to_owned(),
        params,
    };
    assert(statement@.params =~= seq![pattern@]);
    statement
}

/// Reads the rows that a search brought. A row that cannot be read is left
/// out; the others are listed in the order in which they came.
pub fn search_by_name_answer(outcome: Result<Vec<ChannelRow>, StorageFailure>) -> (answer: Result<
    Vec<Channel>,
    RepositoryError,
>)
    ensures
        match outcome {
            Err(_) => answer matches Err(error) && error@ == ErrorView::StorageUnavailable,
            Ok(rows) => answer matches Ok(list) && channel_views(list@) == row_views(
                rows@,
            ).filter_map(readable()),
        },
{
    let rows = match outcome {
        Err(_) => { return Err(RepositoryError::StorageUnavailable); },
        Ok(rows) => rows,
    };
    let mut list: Vec<Channel> = Vec::new();
    let mut at: usize = 0;
    assert(row_views(rows@).take(0) =~= Seq::<ChannelRowView>::empty());
    while at < rows.len()
        invariant
            at <= rows.len(),
            channel_views(list@) == row_views(rows@).take(at as int).filter_map(readable()),
        decreases rows.len() - at,
    {
        proof {
            row_views(rows@).lemma_filter_map_take_succ(readable(), at as int);
        }
        match Channel::try_from(&rows[at]) {
            Ok(channel) => {
                assert(channel_views(list@.push(channel)) =~= channel_views(list@) + seq![
                    channel@,
                ]);
                list.push(channel);
            },
            Err(_) => {},
        }
        at += 1;
    }
    assert(row_views(rows@).take(at as int) =~= row_views(rows@));
    Ok(list)
}

pub fn create_statement(channel: &DraftChannel) -> (statement: Statement)
    ensures
        statement@ == create_query(channel@),
{
    let mut params: Vec<String> = Vec::new();
    params.push(channel.id.clone());
    params.push(channel.name.clone());
    params.push(channel.icon_url.to_string());
    let statement = Statement {
        sql: "INSERT INTO channels(id, name, icon_url) VALUES ($1, $2, $3);".to_owned(),
        params,
    };
    assert(statement@.params =~= seq![channel@.id, channel@.name, channel@.icon_url]);
    statement
}

pub fn create_answer(channel: &DraftChannel, outcome: Result<u64, StorageFailure>) -> (answer: Result<
    (),
    RepositoryError,
>)
    ensures
        write_view(answer) == create_reading(channel@, write_outcome_view(outcome)),
{
    match outcome {
        Err(failure) => Err(RepositoryError::from_write_failure(failure)),
        Ok(written) => if written == 0 {
            Err(channel.insert_failure())
        } else {
            Ok(())
        },
    }
}

} // verus!
