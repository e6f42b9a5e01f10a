//! Fatal pipeline errors: a message plus an optional underlying cause,
//! forming a chain that is rendered outermost-first.

use vstd::prelude::*;

verus! {

/// One link of an error chain. `msg` is the context added at this level;
/// `cause` is the deeper error it wraps, if any.
#[derive(Debug)]
pub struct Error {
    pub msg: String,
    pub cause: Option<Box<Error>>,
}

impl Error {
    /// The rendered description: the outermost message, then each cause on
    /// a line of its own introduced by "caused by: ".
    pub open spec fn render_spec(self) -> Seq<char>
        decreases self,
    {
        match self.cause {
            None => self.msg@,
            Some(c) => self.msg@ + "\ncaused by: "@ + c.render_spec(),
        }
    }

    /// An error with no deeper cause.
    pub fn new(msg: String) -> (r: Error)
        ensures
            r.msg == msg,
            r.cause is None,
    {
        Error { msg, cause: None }
    }

    /// Wrap `cause` with the added context `msg`.
    pub fn chain(msg: String, cause: Error) -> (r: Error)
        ensures
            r.msg == msg,
            r.cause matches Some(c) && *c == cause,
    {
        Error { msg, cause: Some(Box::new(cause)) }
    }

    /// Render the whole chain, outermost message first.
    pub fn render(&self) -> (r: String)
        ensures
            r@ == self.render_spec(),
        decreases *self,
    {
        let mut s = self.msg.clone();
        match &self.cause {
            None => s,
            Some(c) => {
                s.append("\ncaused by: ");
                let rest = c.render();
                s.append(rest.as_str());
                s
            },
        }
    }
}

} // verus!
