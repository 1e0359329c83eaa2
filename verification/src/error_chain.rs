//! A named error that carries lines of detail and, optionally, the error
//! that caused it, with a result type and helpers to build such chains.

use vstd::prelude::*;
use vstd::string::StringExecFns;
use std::result::Result as stdResult;
use crate::document::texts_of;
use crate::errors::IoError;

verus! {

/// An error with a name, lines of detail, and the error that caused it.
pub struct Error {
    name: String,
    details: Vec<String>,
    cause: Option<Box<Error>>,
}

/// What an `Error` says: its name, its lines of detail, oldest first, and
/// what caused it.
pub struct ErrorView {
    pub name: Seq<char>,
    pub details: Seq<Seq<char>>,
    pub cause: Option<Box<ErrorView>>,
}

impl Error {
    /// What the error says, with what its causes say.
    pub closed spec fn model(&self) -> ErrorView
        decreases self,
    {
        ErrorView {
            name: self.name@,
            details: texts_of(self.details@),
            cause: match self.cause {
                Some(cause) => Some(Box::new(cause.model())),
                None => None,
            },
        }
    }
}

impl View for Error {
    type V = ErrorView;

    open spec fn view(&self) -> ErrorView {
        self.model()
    }
}

/// The lines of detail as they are shown: each line that is not empty on a
/// line of its own, behind a bar.
pub open spec fn details_text(details: Seq<Seq<char>>) -> Seq<char>
    decreases details.len(),
{
    if details.len() == 0 {
        Seq::empty()
    } else if details.last().len() == 0 {
        details_text(details.drop_last())
    } else {
        details_text(details.drop_last()) + seq!['\n', '|', ' '] + details.last()
    }
}

impl ErrorView {
    /// An error with one line of detail and no cause.
    pub open spec fn simple(name: Seq<char>, details: Seq<char>) -> ErrorView {
        ErrorView { name, details: seq![details], cause: None }
    }

    /// A new error with one line of detail, caused by `self`.
    pub open spec fn chained(self, name: Seq<char>, details: Seq<char>) -> ErrorView {
        ErrorView { name, details: seq![details], cause: Some(Box::new(self)) }
    }

    /// The error with one more line of detail at the end.
    pub open spec fn with_detail(self, details: Seq<char>) -> ErrorView {
        ErrorView { details: self.details.push(details), ..self }
    }

    /// The error with one more line of detail, `offset` lines before the end.
    pub open spec fn with_detail_before(self, details: Seq<char>, offset: int) -> ErrorView {
        ErrorView { details: self.details.insert(self.details.len() - offset, details), ..self }
    }

    /// The error as it is shown: its name, its details, and its cause after
    /// the words "Caused by".
    pub open spec fn text(self) -> Seq<char>
        decreases self,
    {
        let own = self.name + details_text(self.details);
        match self.cause {
            Some(cause) => own + seq![
                '\n',
                '\n',
                'C',
                'a',
                'u',
                's',
                'e',
                'd',
                ' ',
                'b',
                'y',
                ':',
                ' ',
            ] + cause.text(),
            None => own,
        }
    }
}

impl Error {
    /// An error with one line of detail and no cause.
    pub fn new(name: &str, details: &str) -> (e: Self)
        ensures
            e@ == ErrorView::simple(name@, details@),
    {
        let e = Self { name: name.to_string(), details: vec![details.to_string()], cause: None };
        assert(texts_of(e.details@) =~= seq![details@]);
        e
    }

    /// A new error named `name` with one line of detail, caused by `cause`.
    fn caused_by(name: &str, details: String, cause: Error) -> (e: Self)
        ensures
            e@ == cause@.chained(name@, details@),
    {
        let e = Self {
            name: name.to_string(),
            details: vec![details],
            cause: Some(Box::new(cause)),
        };
        assert(texts_of(e.details@) =~= seq![details@]);
        e
    }

    fn push_detail(&mut self, details: String)
        ensures
            final(self)@ == old(self)@.with_detail(details@),
    {
        self.details.push(details);
        assert(texts_of(self.details@) =~= texts_of(old(self).details@).push(details@));
    }

    fn insert_detail(&mut self, details: String, offset: usize)
        requires
            offset <= old(self)@.details.len(),
        ensures
            final(self)@ == old(self)@.with_detail_before(details@, offset as int),
    {
        let at: usize = self.details.len() - offset;
        self.details.insert(at, details);
        assert(texts_of(self.details@) =~= texts_of(old(self).details@).insert(
            at as int,
            details@,
        ));
    }

    /// The lines of detail as one text.
    pub fn get_details(&self) -> (text: String)
        ensures
            text@ == details_text(self@.details),
    {
        let mut details_string = String::new();
        let mut i: usize = 0;
        while i < self.details.len()
            invariant
                i <= self.details.len(),
                details_string@ == details_text(texts_of(self.details@).take(i as int)),
            decreases self.details.len() - i,
        {
            proof {
                let all = texts_of(self.details@);
                assert(all.take(i + 1).drop_last() == all.take(i as int));
                assert(all.take(i + 1).last() == self.details[i as int]@);
                reveal_strlit("\n| ");
                assert("\n| "@ =~= seq!['\n', '|', ' ']);
            }
            if !self.details[i].as_str().is_empty() {
                details_string.append("\n| ");
                details_string.append(self.details[i].as_str());
            }
            i += 1;
        }
        assert(texts_of(self.details@).take(i as int) == texts_of(self.details@));
        details_string
    }

    /// The error as it is shown to the user.
    pub fn to_text(&self) -> (text: String)
        ensures
            text@ == self@.text(),
        decreases self,
    {
        let mut text = self.name.clone();
        let details = self.get_details();
        text.append(details.as_str());
        match &self.cause {
            Some(cause) => {
                proof {
                    reveal_strlit("\n\nCaused by: ");
                    assert("\n\nCaused by: "@ =~= seq![
                        '\n',
                        '\n',
                        'C',
                        'a',
                        'u',
                        's',
                        'e',
                        'd',
                        ' ',
                        'b',
                        'y',
                        ':',
                        ' ',
                    ]);
                }
                let cause_text = cause.to_text();
                text.append("\n\nCaused by: ");
                text.append(cause_text.as_str());
            },
            None => {},
        }
        text
    }
}

impl From<String> for Error {
    fn from(error: String) -> (e: Error)
        ensures
            e@ == ErrorView::simple("string::String"@, error@),
    {
        let e = Error {
            name: String::from_str("string::String"),
            details: vec![error],
            cause: None,
        };
        assert(texts_of(e.details@) =~= seq![error@]);
        e
    }
}

impl vstd::std_specs::convert::FromSpecImpl<String> for Error {
    open spec fn obeys_from_spec() -> bool {
        false
    }

    open spec fn from_spec(error: String) -> Error {
        arbitrary()
    }
}

impl From<IoError> for Error {
    fn from(error: IoError) -> (e: Error)
        ensures
            e@ == ErrorView::simple("io::Error"@, error.message@),
    {
        let e = Error {
            name: String::from_str("io::Error"),
            details: vec![error.message],
            cause: None,
        };
        assert(texts_of(e.details@) =~= seq![error.message@]);
        e
    }
}

impl vstd::std_specs::convert::FromSpecImpl<IoError> for Error {
    open spec fn obeys_from_spec() -> bool {
        false
    }

    open spec fn from_spec(error: IoError) -> Error {
        arbitrary()
    }
}

/// A value, or the `Error` that kept it from being made.
pub enum Result<T> {
    Success(T),
    Failure(Error),
}

impl<T> Result<T> {
    /// Whether this is a success.
    pub fn is_ok(&self) -> (b: bool)
        ensures
            b == (self is Success),
    {
        match self {
            Result::Success(_) => true,
            Result::Failure(_) => false,
        }
    }

    /// Whether this is a failure.
    pub fn is_err(&self) -> (b: bool)
        ensures
            b == (self is Failure),
    {
        match self {
            Result::Success(_) => false,
            Result::Failure(_) => true,
        }
    }

    /// On failure, wraps the error as the cause of a new one.
    pub fn chain_err(self, name: &str, details: &str) -> (r: Self)
        ensures
            match self {
                Result::Success(_) => r == self,
                Result::Failure(error) => r matches Result::Failure(chained) && chained@
                    == error@.chained(name@, details@),
            },
    {
        match self {
            Result::Failure(error) => Result::Failure(
                Error::caused_by(name, details.to_string(), error),
            ),
            Result::Success(v) => Result::Success(v),
        }
    }

    /// On failure, wraps the error as the cause of a new one whose detail
    /// `details_fn` gives; `details_fn` is not called on success.
    pub fn chain_err_lazy(self, name: &str, details_fn: impl FnOnce() -> String) -> (r: Self)
        requires
            self is Failure ==> call_requires(details_fn, ()),
        ensures
            match self {
                Result::Success(_) => r == self,
                Result::Failure(error) => r matches Result::Failure(chained) && exists|
                    details: String,
                |
                    call_ensures(details_fn, (), details) && chained@ == error@.chained(
                        name@,
                        details@,
                    ),
            },
    {
        match self {
            Result::Failure(error) => {
                let details = details_fn();
                Result::Failure(Error::caused_by(name, details, error))
            },
            Result::Success(v) => Result::Success(v),
        }
    }

    /// On failure, adds a line of detail to the error.
    pub fn err_details(self, details: &str) -> (r: Self)
        ensures
            match self {
                Result::Success(_) => r == self,
                Result::Failure(error) => r matches Result::Failure(detailed) && detailed@
                    == error@.with_detail(details@),
            },
    {
        match self {
            Result::Failure(mut error) => {
                error.push_detail(details.to_string());
                Result::Failure(error)
            },
            Result::Success(v) => Result::Success(v),
        }
    }

    /// As `err_details`; `details_fn` is called only on failure.
    pub fn err_details_lazy(self, details_fn: impl FnOnce() -> String) -> (r: Self)
        requires
            self is Failure ==> call_requires(details_fn, ()),
        ensures
            match self {
                Result::Success(_) => r == self,
                Result::Failure(error) => r matches Result::Failure(detailed) && exists|
                    details: String,
                |
                    call_ensures(details_fn, (), details) && detailed@ == error@.with_detail(
                        details@,
                    ),
            },
    {
        match self {
            Result::Failure(mut error) => {
                let details = details_fn();
                error.push_detail(details);
                Result::Failure(error)
            },
            Result::Success(v) => Result::Success(v),
        }
    }

    /// On failure, adds a line of detail `offset` lines before the last.
    pub fn err_pre_details(self, details: &str, offset: usize) -> (r: Self)
        requires
            self matches Result::Failure(error) ==> offset <= error@.details.len(),
        ensures
            match self {
                Result::Success(_) => r == self,
                Result::Failure(error) => r matches Result::Failure(detailed) && detailed@
                    == error@.with_detail_before(details@, offset as int),
            },
    {
        match self {
            Result::Failure(mut error) => {
                error.insert_detail(details.to_string(), offset);
                Result::Failure(error)
            },
            Result::Success(v) => Result::Success(v),
        }
    }

    /// As `err_pre_details`; `details_fn` is called only on failure.
    pub fn err_pre_details_lazy(self, details_fn: impl FnOnce() -> String, offset: usize) -> (r:
        Self)
        requires
            self is Failure ==> call_requires(details_fn, ()),
            self matches Result::Failure(error) ==> offset <= error@.details.len(),
        ensures
            match self {
                Result::Success(_) => r == self,
                Result::Failure(error) => r matches Result::Failure(detailed) && exists|
                    details: String,
                |
                    call_ensures(details_fn, (), details) && detailed@
                        == error@.with_detail_before(details@, offset as int),
            },
    {
        match self {
            Result::Failure(mut error) => {
                let details = details_fn();
                error.insert_detail(details, offset);
                Result::Failure(error)
            },
            Result::Success(v) => Result::Success(v),
        }
    }

    /// A success as it is; on failure, what `other` makes of the error.
    pub fn or_else(self, other: impl FnOnce(Error) -> Self) -> (r: Self)
        requires
            self matches Result::Failure(error) ==> call_requires(other, (error,)),
        ensures
            match self {
                Result::Success(_) => r == self,
                Result::Failure(error) => call_ensures(other, (error,), r),
            },
    {
        match self {
            Result::Failure(error) => other(error),
            Result::Success(v) => Result::Success(v),
        }
    }

    /// The value of a success.
    pub fn unwrap(self) -> (v: T)
        requires
            self is Success,
        ensures
            self == Result::Success(v),
    {
        match self {
            Result::Success(v) => v,
            Result::Failure(_) => vstd::pervasive::unreached(),
        }
    }

    /// The value of a success; on failure, what `other` makes of the error.
    pub fn unwrap_or(self, other: impl FnOnce(Error) -> T) -> (v: T)
        requires
            self matches Result::Failure(error) ==> call_requires(other, (error,)),
        ensures
            match self {
                Result::Success(value) => v == value,
                Result::Failure(error) => call_ensures(other, (error,), v),
            },
    {
        match self {
            Result::Success(v) => v,
            Result::Failure(error) => other(error),
        }
    }
}

/// The failure with an error of the given name and detail.
pub fn err<T>(error_name: &str, error_details: &str) -> (r: Result<T>)
    ensures
        r matches Result::Failure(error) && error@ == ErrorView::simple(
            error_name@,
            error_details@,
        ),
{
    Result::Failure(Error::new(error_name, error_details))
}

/// The failure with an error of the given name, with the detail that
/// `error_details_fn` gives.
pub fn err_lazy<T>(error_name: &str, error_details_fn: impl FnOnce() -> String) -> (r: Result<T>)
    requires
        call_requires(error_details_fn, ()),
    ensures
        r matches Result::Failure(error) && exists|details: String|
            call_ensures(error_details_fn, (), details) && error@ == ErrorView::simple(
                error_name@,
                details@,
            ),
{
    let details = error_details_fn();
    let error = Error { name: error_name.to_string(), details: vec![details], cause: None };
    assert(texts_of(error.details@) =~= seq![details@]);
    Result::Failure(error)
}


/// Turning a missing value into a named error.
pub trait CustomOptionFns<T> {
    /// The option that `self` is.
    spec fn as_option(&self) -> Option<T>;

    /// The value, or an error with the given name and detail where there is
    /// none.
    fn none_err(&self, error_name: &str, error_details: &str) -> (r: Result<&T>)
        ensures
            match self.as_option() {
                Some(v) => r == Result::Success(&v),
                None => r matches Result::Failure(error) && error@ == ErrorView::simple(
                    error_name@,
                    error_details@,
                ),
            },
    ;

    /// As `none_err`; `error_details_fn` is called only where the value is
    /// missing.
    fn none_err_lazy<F: FnOnce() -> String>(&self, error_name: &str, error_details_fn: F) -> (r:
        Result<&T>)
        requires
            self.as_option() is None ==> call_requires(error_details_fn, ()),
        ensures
            match self.as_option() {
                Some(v) => r == Result::Success(&v),
                None => r matches Result::Failure(error) && exists|details: String|
                    call_ensures(error_details_fn, (), details) && error@ == ErrorView::simple(
                        error_name@,
                        details@,
                    ),
            },
    ;
}

impl<T> CustomOptionFns<T> for Option<T> {
    open spec fn as_option(&self) -> Option<T> {
        *self
    }

    fn none_err(&self, error_name: &str, error_details: &str) -> (r: Result<&T>) {
        match self {
            Some(v) => Result::Success(v),
            None => err(error_name, error_details),
        }
    }

    fn none_err_lazy<F: FnOnce() -> String>(&self, error_name: &str, error_details_fn: F) -> (r:
        Result<&T>) {
        match self {
            Some(v) => Result::Success(v),
            None => err_lazy(error_name, error_details_fn),
        }
    }
}

/// `error` is what converting `source` into an `Error` may give.
pub open spec fn converts_to<E>(source: E, error: Error) -> bool where Error: From<E> {
    call_ensures(<Error as From<E>>::from, (source,), error)
}

/// Turning the failure of a standard result into a named error, with the
/// same ways to add to it as `Result` has.
pub trait CustomResultFns<T, E>: Sized where Error: From<E> {
    /// The standard result that `self` is.
    spec fn as_result(self) -> stdResult<T, E>;

    fn to_custom_err(self) -> (r: Result<T>)
        ensures
            match self.as_result() {
                Ok(v) => r == Result::Success(v),
                Err(e) => r matches Result::Failure(error) && converts_to(e, error),
            },
    ;

    fn chain_err(self, name: &str, details: &str) -> (r: Result<T>)
        ensures
            match self.as_result() {
                Ok(v) => r == Result::Success(v),
                Err(e) => r matches Result::Failure(error) && exists|cause: Error|
                    converts_to(e, cause) && error@ == cause@.chained(name@, details@),
            },
    ;

    fn chain_err_lazy<F: FnOnce() -> String>(self, name: &str, details_fn: F) -> (r: Result<T>)
        requires
            self.as_result() is Err ==> call_requires(details_fn, ()),
        ensures
            match self.as_result() {
                Ok(v) => r == Result::Success(v),
                Err(e) => r matches Result::Failure(error) && exists|cause: Error, details: String|
                    converts_to(e, cause) && call_ensures(details_fn, (), details) && error@
                        == cause@.chained(name@, details@),
            },
    ;

    fn err_details(self, details: &str) -> (r: Result<T>)
        ensures
            match self.as_result() {
                Ok(v) => r == Result::Success(v),
                Err(e) => r matches Result::Failure(error) && exists|converted: Error|
                    converts_to(e, converted) && error@ == converted@.with_detail(details@),
            },
    ;

    fn err_pre_details(self, details: &str, offset: usize) -> (r: Result<T>)
        requires
            forall|e: E, converted: Error|
                self.as_result() == Err::<T, E>(e) && converts_to(e, converted) ==> offset
                    <= converted@.details.len(),
        ensures
            match self.as_result() {
                Ok(v) => r == Result::Success(v),
                Err(e) => r matches Result::Failure(error) && exists|converted: Error|
                    converts_to(e, converted) && error@ == converted@.with_detail_before(
                        details@,
                        offset as int,
                    ),
            },
    ;

    fn err_details_lazy<F: FnOnce() -> String>(self, details_fn: F) -> (r: Result<T>)
        requires
            self.as_result() is Err ==> call_requires(details_fn, ()),
        ensures
            match self.as_result() {
                Ok(v) => r == Result::Success(v),
                Err(e) => r matches Result::Failure(error) && exists|
                    converted: Error,
                    details: String,
                |
                    converts_to(e, converted) && call_ensures(details_fn, (), details) && error@
                        == converted@.with_detail(details@),
            },
    ;

    fn err_pre_details_lazy<F: FnOnce() -> String>(self, details_fn: F, offset: usize) -> (r:
        Result<T>)
        requires
            self.as_result() is Err ==> call_requires(details_fn, ()),
            forall|e: E, converted: Error|
                self.as_result() == Err::<T, E>(e) && converts_to(e, converted) ==> offset
                    <= converted@.details.len(),
        ensures
            match self.as_result() {
                Ok(v) => r == Result::Success(v),
                Err(e) => r matches Result::Failure(error) && exists|
                    converted: Error,
                    details: String,
                |
                    converts_to(e, converted) && call_ensures(details_fn, (), details) && error@
                        == converted@.with_detail_before(details@, offset as int),
            },
    ;
}

impl<T, E> CustomResultFns<T, E> for stdResult<T, E> where Error: From<E> {
    open spec fn as_result(self) -> stdResult<T, E> {
        self
    }

    fn to_custom_err(self) -> (r: Result<T>) {
        match self {
            Ok(v) => Result::Success(v),
            Err(e) => Result::Failure(Error::from(e)),
        }
    }

    fn chain_err(self, name: &str, details: &str) -> (r: Result<T>) {
        match self {
            Ok(v) => Result::Success(v),
            Err(e) => {
                let cause = Error::from(e);
                assert(converts_to(e, cause));
                Result::Failure(Error::caused_by(name, details.to_string(), cause))
            },
        }
    }

    fn chain_err_lazy<F: FnOnce() -> String>(self, name: &str, details_fn: F) -> (r: Result<T>) {
        match self {
            Ok(v) => Result::Success(v),
            Err(e) => {
                let cause = Error::from(e);
                assert(converts_to(e, cause));
                let details = details_fn();
                Result::Failure(Error::caused_by(name, details, cause))
            },
        }
    }

    fn err_details(self, details: &str) -> (r: Result<T>) {
        match self {
            Ok(v) => Result::Success(v),
            Err(e) => {
                let mut new_error = Error::from(e);
                assert(converts_to(e, new_error));
                new_error.push_detail(details.to_string());
                Result::Failure(new_error)
            },
        }
    }

    fn err_pre_details(self, details: &str, offset: usize) -> (r: Result<T>) {
        match self {
            Ok(v) => Result::Success(v),
            Err(e) => {
                let mut new_error = Error::from(e);
                assert(converts_to(e, new_error));
                new_error.insert_detail(details.to_string(), offset);
                Result::Failure(new_error)
            },
        }
    }

    fn err_details_lazy<F: FnOnce() -> String>(self, details_fn: F) -> (r: Result<T>) {
        match self {
            Ok(v) => Result::Success(v),
            Err(e) => {
                let mut new_error = Error::from(e);
                assert(converts_to(e, new_error));
                let details = details_fn();
                new_error.push_detail(details);
                Result::Failure(new_error)
            },
        }
    }

    fn err_pre_details_lazy<F: FnOnce() -> String>(self, details_fn: F, offset: usize) -> (r:
        Result<T>) {
        match self {
            Ok(v) => Result::Success(v),
            Err(e) => {
                let mut new_error = Error::from(e);
                assert(converts_to(e, new_error));
                let details = details_fn();
                new_error.insert_detail(details, offset);
                Result::Failure(new_error)
            },
        }
    }
}

} // verus!
