//! The two kinds of failure that every wrapper reports.

use vstd::prelude::*;

verus! {

/// A failure of the wrapper layer.
#[derive(Debug)]
pub enum WlrError {
    /// An object of the named native type was used after its destroy
    /// notification had fired.
    ObjectDestroyed(String),
    /// The named native entry point returned null or `false`.
    CallFailed(String),
}

/// What a [`WlrError`] says, with the name that it carries as a sequence of
/// characters.
pub enum Failure {
    /// Use of a destroyed object of the named type.
    ObjectDestroyed(Seq<char>),
    /// Failure of the named native entry point.
    CallFailed(Seq<char>),
}

impl View for WlrError {
    type V = Failure;

    open spec fn view(&self) -> Failure {
        match self {
            WlrError::ObjectDestroyed(name) => Failure::ObjectDestroyed(name@),
            WlrError::CallFailed(name) => Failure::CallFailed(name@),
        }
    }
}

/// A result as plain values: what it holds, or what its failure says.
pub open spec fn plain<V>(r: Result<V, WlrError>) -> Result<V, Failure> {
    match r {
        Ok(value) => Ok(value),
        Err(e) => Err(e@),
    }
}

/// `r` is the failure of using an object of type `kind` after its
/// destruction.
pub open spec fn use_of_destroyed<V>(r: Result<V, WlrError>, kind: Seq<char>) -> bool {
    plain(r) == Err::<V, Failure>(Failure::ObjectDestroyed(kind))
}

/// What a wrapper makes of the reference that the native constructor
/// `operation` returned: null is the failure of that constructor, and
/// anything else is the reference.
pub open spec fn constructed<T>(
    created: Option<T>,
    operation: Seq<char>,
    r: Result<T, WlrError>,
) -> bool {
    plain(r) == match created {
        Some(ptr) => Ok::<T, Failure>(ptr),
        None => Err::<T, Failure>(Failure::CallFailed(operation)),
    }
}

/// What a wrapper makes of the `bool` that the native entry point
/// `operation` returned: `false` is the failure of that entry point.
pub open spec fn completed(ok: bool, operation: Seq<char>, r: Result<(), WlrError>) -> bool {
    plain(r) == if ok {
        Ok::<(), Failure>(())
    } else {
        Err::<(), Failure>(Failure::CallFailed(operation))
    }
}

impl WlrError {
    /// The text of the failure.
    pub open spec fn message_spec(self) -> Seq<char> {
        match self {
            WlrError::ObjectDestroyed(name) => "use of destroyed "@ + name@,
            WlrError::CallFailed(name) => "call to "@ + name@ + " failed"@,
        }
    }

    /// The text with which a caller stops that cannot go on after the
    /// failure.
    pub open spec fn fatal_message_spec(self) -> Seq<char> {
        match self {
            WlrError::ObjectDestroyed(name) => "operation on destroyed "@ + name@,
            WlrError::CallFailed(name) => "call to "@ + name@ + " failed"@,
        }
    }

    /// Renders the failure as the text to stop with: `operation on
    /// destroyed <type>` or `call to <operation> failed`.
    pub fn fatal_message(&self) -> (text: String)
        ensures
            text@ == self.fatal_message_spec(),
    {
        match self {
            WlrError::ObjectDestroyed(name) => {
                let text = String::from_str("operation on destroyed ");
                text.concat(name.as_str())
            },
            WlrError::CallFailed(name) => {
                let text = String::from_str("call to ");
                let text = text.concat(name.as_str());
                text.concat(" failed")
            },
        }
    }

    /// Renders the failure as text: `use of destroyed <type>` or
    /// `call to <operation> failed`.
    pub fn message(&self) -> (text: String)
        ensures
            text@ == self.message_spec(),
    {
        match self {
            WlrError::ObjectDestroyed(name) => {
                let text = String::from_str("use of destroyed ");
                text.concat(name.as_str())
            },
            WlrError::CallFailed(name) => {
                let text = String::from_str("call to ");
                let text = text.concat(name.as_str());
                text.concat(" failed")
            },
        }
    }
}

/// Turns the reference that the native constructor `operation` returned
/// into a result.
pub fn check_created<T>(created: Option<T>, operation: &str) -> (r: Result<T, WlrError>)
    ensures
        constructed(created, operation@, r),
{
    match created {
        Some(ptr) => Ok(ptr),
        None => Err(WlrError::CallFailed(operation.to_owned())),
    }
}

/// Turns the `bool` that the native entry point `operation` returned into a
/// result.
pub fn check_call(ok: bool, operation: &str) -> (r: Result<(), WlrError>)
    ensures
        completed(ok, operation@, r),
{
    if ok {
        Ok(())
    } else {
        Err(WlrError::CallFailed(operation.to_owned()))
    }
}

} // verus!
