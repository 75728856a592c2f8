//! The executor of queries, and a scripted one that needs no database.

use vstd::prelude::*;
use crate::cell::{rows_view, CellValue, RawRow};
use crate::error::ConnectionError;

verus! {

/// What an execution came to, as a mathematical value: the rows, or the failure.
pub type Response = Result<Seq<Seq<CellValue>>, ConnectionError>;

/// The mathematical value of what `execute` returned.
pub open spec fn response_view(outcome: Result<Vec<RawRow>, ConnectionError>) -> Response {
    match outcome {
        Ok(rows) => Ok(rows_view(rows@)),
        Err(e) => Err(e),
    }
}

/// An executor that owns one database session.
///
/// Executing may change the session, so it takes the connection exclusively.
pub trait Connection: Sized {
    /// What this kind of connection promises of one execution: whether, from
    /// the state `self`, sending `sql_text` can leave the session in `after`
    /// with `response` as the answer. A connection to a live database promises
    /// nothing and lets this hold always.
    spec fn answers(&self, sql_text: Seq<char>, after: Self, response: Response) -> bool;

    /// Sends the text to the database and returns the rows it answered with.
    fn execute(&mut self, sql_text: &str) -> (outcome: Result<Vec<RawRow>, ConnectionError>)
        ensures
            old(self).answers(sql_text@, *final(self), response_view(outcome)),
    ;
}

/// The state of a scripted session.
pub struct Script {
    /// The answers still to be given, the next one first.
    pub pending: Seq<Response>,
    /// The texts that were sent, the oldest first.
    pub sent: Seq<Seq<char>>,
    /// Whether the session was closed.
    pub closed: bool,
}

/// The mathematical value of a list of scripted answers.
pub open spec fn script_view(answers: Seq<Result<Vec<RawRow>, ConnectionError>>) -> Seq<Response> {
    Seq::new(answers.len(), |i: int| response_view(answers[i]))
}

/// The mathematical value of a list of texts.
pub open spec fn texts_view(texts: Seq<String>) -> Seq<Seq<char>> {
    Seq::new(texts.len(), |i: int| texts[i]@)
}

/// What one execution does to a scripted session.
pub open spec fn scripted_step(before: Script, sql_text: Seq<char>, after: Script, response: Response) -> bool {
    if before.closed || before.pending.len() == 0 {
        after == before && response == Err::<Seq<Seq<CellValue>>, ConnectionError>(
            ConnectionError::Unavailable,
        )
    } else {
        &&& response == before.pending[0]
        &&& after.pending == before.pending.subrange(1, before.pending.len() as int)
        &&& after.sent == before.sent.push(sql_text)
        &&& !after.closed
    }
}

/// A connection that replays prepared answers in order and keeps the texts it
/// was sent. Once closed, or with no answer left, it is unavailable.
pub struct ScriptedConnection {
    pending: Vec<Result<Vec<RawRow>, ConnectionError>>,
    sent: Vec<String>,
    closed: bool,
}

impl View for ScriptedConnection {
    type V = Script;

    closed spec fn view(&self) -> Script {
        Script {
            pending: script_view(self.pending@),
            sent: texts_view(self.sent@),
            closed: self.closed,
        }
    }
}

impl ScriptedConnection {
    /// An open session that will give `answers` in order.
    pub fn new(answers: Vec<Result<Vec<RawRow>, ConnectionError>>) -> (conn: ScriptedConnection)
        ensures
            conn@.pending == script_view(answers@),
            conn@.sent == Seq::<Seq<char>>::empty(),
            !conn@.closed,
    {
        let conn = ScriptedConnection { pending: answers, sent: Vec::new(), closed: false };
        assert(texts_view(conn.sent@) =~= Seq::<Seq<char>>::empty());
        conn
    }

    /// Closes the session; what is pending and what was sent stay as they are.
    pub fn close(&mut self)
        ensures
            final(self)@.closed,
            final(self)@.pending == old(self)@.pending,
            final(self)@.sent == old(self)@.sent,
    {
        self.closed = true;
    }

    /// Whether the session was closed.
    pub fn is_closed(&self) -> (closed: bool)
        ensures
            closed == self@.closed,
    {
        self.closed
    }

    /// How many answers are still to be given.
    pub fn remaining(&self) -> (n: usize)
        ensures
            n == self@.pending.len(),
    {
        self.pending.len()
    }

    /// The texts that were sent, the oldest first.
    pub fn sent(&self) -> (texts: &Vec<String>)
        ensures
            texts_view(texts@) == self@.sent,
    {
        &self.sent
    }
}

impl Connection for ScriptedConnection {
    open spec fn answers(&self, sql_text: Seq<char>, after: Self, response: Response) -> bool {
        scripted_step(self@, sql_text, after@, response)
    }

    fn execute(&mut self, sql_text: &str) -> (outcome: Result<Vec<RawRow>, ConnectionError>) {
        if self.closed || self.pending.len() == 0 {
            return Err(ConnectionError::Unavailable);
        }
        let ghost before = self.pending@;
        let ghost sent_before = self.sent@;
        let outcome = self.pending.remove(0);
        self.sent.push(sql_text.to_owned());
        proof {
            assert(script_view(self.pending@) =~= script_view(before).subrange(
                1,
                before.len() as int,
            ));
            assert(texts_view(self.sent@) =~= texts_view(sent_before).push(sql_text@));
        }
        outcome
    }
}

} // verus!
