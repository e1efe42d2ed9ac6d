//! Catching one kind of error: an `Error` holds one of the known error kinds,
//! can be asked which one, and can be taken apart into it; `CatchError` wraps
//! an `Animal` and turns the chosen kind of error into a name.

use vstd::prelude::*;
use core::marker::PhantomData;

verus! {

#[derive(Debug, Clone, Copy, PartialEq, Eq, Structural)]
pub struct NotFoundError;

#[derive(Debug, Clone, Copy, PartialEq, Eq, Structural)]
pub struct AnotherError;

/// The error kinds that an `Error` can hold.
#[derive(Debug, Clone, Copy, PartialEq, Eq, Structural)]
pub enum ErrorSource {
    NotFound(NotFoundError),
    Another(AnotherError),
}

/// An error kind that an `Error` can hold and hand back.
pub trait TestError: Sized {
    /// `source` holds an error of this kind.
    spec fn held_in(source: ErrorSource) -> bool;

    /// The error of this kind that `source` holds.
    spec fn from_source(source: ErrorSource) -> Self;

    /// The source that holds `self`.
    spec fn to_source(self) -> ErrorSource;

    /// An error of this kind survives being held: its source is of this
    /// kind and gives it back.
    proof fn lemma_kind_round_trip(e: Self)
        ensures
            Self::held_in(e.to_source()),
            Self::from_source(e.to_source()) == e,
    ;

    fn msg(&self) -> String;

    fn wrap(self) -> (r: ErrorSource)
        ensures
            r == self.to_source(),
            Self::held_in(r),
            Self::from_source(r) == self,
    ;

    fn unwrap_source(source: ErrorSource) -> (r: Option<Self>)
        ensures
            r is Some <==> Self::held_in(source),
            r matches Some(e) ==> e == Self::from_source(source) && e.to_source() == source,
    ;

    fn peek(source: &ErrorSource) -> (r: Option<&Self>)
        ensures
            r is Some <==> Self::held_in(*source),
            r matches Some(e) ==> *e == Self::from_source(*source),
    ;
}

impl TestError for NotFoundError {
    open spec fn held_in(source: ErrorSource) -> bool {
        source is NotFound
    }

    open spec fn from_source(source: ErrorSource) -> NotFoundError {
        NotFoundError
    }

    open spec fn to_source(self) -> ErrorSource {
        ErrorSource::NotFound(self)
    }

    proof fn lemma_kind_round_trip(e: NotFoundError) {
    }

    fn msg(&self) -> String {
        "Not Found Error".to_owned()
    }

    fn wrap(self) -> (r: ErrorSource) {
        ErrorSource::NotFound(self)
    }

    fn unwrap_source(source: ErrorSource) -> (r: Option<NotFoundError>) {
        match source {
            ErrorSource::NotFound(e) => Some(e),
            _ => None,
        }
    }

    fn peek(source: &ErrorSource) -> (r: Option<&NotFoundError>) {
        match source {
            ErrorSource::NotFound(e) => Some(e),
            _ => None,
        }
    }
}

impl TestError for AnotherError {
    open spec fn held_in(source: ErrorSource) -> bool {
        source is Another
    }

    open spec fn from_source(source: ErrorSource) -> AnotherError {
        AnotherError
    }

    open spec fn to_source(self) -> ErrorSource {
        ErrorSource::Another(self)
    }

    proof fn lemma_kind_round_trip(e: AnotherError) {
    }

    fn msg(&self) -> String {
        "Another".to_owned()
    }

    fn wrap(self) -> (r: ErrorSource) {
        ErrorSource::Another(self)
    }

    fn unwrap_source(source: ErrorSource) -> (r: Option<AnotherError>) {
        match source {
            ErrorSource::Another(e) => Some(e),
            _ => None,
        }
    }

    fn peek(source: &ErrorSource) -> (r: Option<&AnotherError>) {
        match source {
            ErrorSource::Another(e) => Some(e),
            _ => None,
        }
    }
}

#[derive(Debug, Clone, Copy, PartialEq, Eq, Structural)]
pub struct Error {
    source: ErrorSource,
}

impl Error {
    pub closed spec fn source_spec(&self) -> ErrorSource {
        self.source
    }

    /// The error that holds `source`.
    pub closed spec fn of_source(source: ErrorSource) -> Error {
        Error { source }
    }

    /// The error made from a source holds that source.
    pub broadcast proof fn lemma_of_source(source: ErrorSource)
        ensures
            #[trigger] Error::of_source(source).source_spec() == source,
    {
    }

    /// An error made from `e`, as `from` and `from_kind` make it, is of `e`'s
    /// kind and hands `e` back.
    pub proof fn lemma_made_from<A: TestError>(e: A)
        ensures
            Error::of_source(e.to_source()).source_spec() == e.to_source(),
            A::held_in(Error::of_source(e.to_source()).source_spec()),
            A::from_source(Error::of_source(e.to_source()).source_spec()) == e,
    {
        A::lemma_kind_round_trip(e);
    }

    /// The error that `e` becomes.
    pub fn from_kind<A: TestError>(e: A) -> (r: Error)
        ensures
            r == Error::of_source(e.to_source()),
            r.source_spec() == e.to_source(),
            A::held_in(r.source_spec()),
    {
        Error { source: e.wrap() }
    }

    /// The held error, where it is of kind `T`.
    pub fn downcast_ref<T: TestError>(&self) -> (r: Option<&T>)
        ensures
            r is Some <==> T::held_in(self.source_spec()),
            r matches Some(e) ==> *e == T::from_source(self.source_spec()),
    {
        T::peek(&self.source)
    }

    /// Takes the error apart into its kind `T`, or gives it back unchanged.
    pub fn downcast<T: TestError>(self) -> (r: Result<T, Error>)
        ensures
            r is Ok <==> T::held_in(self.source_spec()),
            r matches Ok(e) ==> e == T::from_source(self.source_spec()),
            r matches Err(e) ==> e == self,
    {
        match T::unwrap_source(self.source) {
            Some(e) => Ok(e),
            None => Err(self),
        }
    }

    /// Whether the held error is of kind `T`.
    pub fn is<T: TestError>(&self) -> (r: bool)
        ensures
            r == T::held_in(self.source_spec()),
    {
        T::peek(&self.source).is_some()
    }
}

impl<A: TestError> From<A> for Error {
    fn from(e: A) -> (r: Error) {
        Error::from_kind(e)
    }
}

impl<A: TestError> vstd::std_specs::convert::FromSpecImpl<A> for Error {
    open spec fn obeys_from_spec() -> bool {
        true
    }

    open spec fn from_spec(e: A) -> Error {
        Error::of_source(e.to_source())
    }
}

pub trait Animal {
    /// Whatever `name` calls on the way accepts what it is handed.
    spec fn name_ready(&self) -> bool;

    /// `r` is a result that `name` may give.
    spec fn name_post(&self, r: Result<String, Error>) -> bool;

    fn name(&self) -> (r: Result<String, Error>)
        requires
            self.name_ready(),
        ensures
            self.name_post(r),
    ;
}

/// An animal whose name is not known: asking for it fails with `NotFoundError`.
pub struct People {
    name: String,
}

impl People {
    pub closed spec fn name_spec(&self) -> Seq<char> {
        self.name@
    }

    pub fn new() -> (r: People)
        ensures
            r.name_spec().len() == 0,
    {
        People { name: String::new() }
    }

    /// Wraps `self` so that an error of kind `ErrType` from `name` goes to `f`.
    pub fn catch_error<F, ErrType>(self, f: F) -> (r: CatchError<People, F, ErrType>)
        where
            F: Fn(ErrType) -> Result<String, Error>,
            ErrType: TestError,
        ensures
            r.inner_spec() == self,
            r.handler() == f,
    {
        CatchError::new(self, f)
    }

    /// What `name` returns.
    pub fn name_result(&self) -> (r: Result<String, Error>)
        ensures
            r matches Err(e) && e.source_spec() == ErrorSource::NotFound(NotFoundError),
    {
        Err(Error::from_kind(NotFoundError))
    }
}

impl Animal for People {
    open spec fn name_ready(&self) -> bool {
        true
    }

    open spec fn name_post(&self, r: Result<String, Error>) -> bool {
        r matches Err(e) && e.source_spec() == ErrorSource::NotFound(NotFoundError)
    }

    fn name(&self) -> (r: Result<String, Error>) {
        self.name_result()
    }
}

/// An animal whose errors of kind `ErrType` are handed to `f`.
pub struct CatchError<E, F, ErrType> {
    inner: E,
    f: F,
    mark: PhantomData<ErrType>,
}

impl<E, F, ErrType> CatchError<E, F, ErrType> {
    pub closed spec fn inner_spec(&self) -> E {
        self.inner
    }

    pub closed spec fn handler(&self) -> F {
        self.f
    }

    pub fn new(inner: E, f: F) -> (r: CatchError<E, F, ErrType>)
        ensures
            r.inner_spec() == inner,
            r.handler() == f,
    {
        CatchError { inner, f, mark: PhantomData }
    }
}

impl<E, F, ErrType> CatchError<E, F, ErrType>
    where
        E: Animal,
        F: Fn(ErrType) -> Result<String, Error>,
        ErrType: TestError,
{
    /// The inner animal is ready, and `f` accepts every error of its kind.
    pub open spec fn handler_ready(&self) -> bool {
        self.inner_spec().name_ready() && forall|e: ErrType| self.handler().requires((e,))
    }

    /// The inner animal's name, with an error of kind `ErrType` handed to `f`.
    pub fn name(&self) -> (r: Result<String, Error>)
        requires
            self.handler_ready(),
        ensures
            exists|inner: Result<String, Error>|
                self.inner_spec().name_post(inner) && #[trigger] Self::caught(inner, self.handler(), r),
    {
        let inner = self.inner.name();
        assert(self.handler() == self.f);
        Self::catch_name(inner, &self.f)
    }

    /// `r` is what becomes of the inner result `inner`: a name passes
    /// through, an error of kind `ErrType` becomes what `f` returns for it,
    /// and any other error passes through unchanged.
    pub open spec fn caught(inner: Result<String, Error>, f: F, r: Result<String, Error>) -> bool {
        match inner {
            Ok(_) => r == inner,
            Err(err) => if ErrType::held_in(err.source_spec()) {
                f.ensures((ErrType::from_source(err.source_spec()),), r)
            } else {
                r == inner
            },
        }
    }

    /// The inner animal's name; where that fails with an error of kind
    /// `ErrType`, what `f` makes of that error; any other error unchanged.
    pub fn catch_name(inner: Result<String, Error>, f: &F) -> (r: Result<String, Error>)
        requires
            forall|e: ErrType| f.requires((e,)),
        ensures
            Self::caught(inner, *f, r),
    {
        match inner {
            Ok(v) => Ok(v),
            Err(err) => {
                if err.is::<ErrType>() {
                    match err.downcast::<ErrType>() {
                        Ok(e) => f(e),
                        Err(err) => Err(err),
                    }
                } else {
                    Err(err)
                }
            },
        }
    }
}

impl<E, F, ErrType> Animal for CatchError<E, F, ErrType>
    where
        E: Animal,
        F: Fn(ErrType) -> Result<String, Error>,
        ErrType: TestError,
{
    open spec fn name_ready(&self) -> bool {
        self.handler_ready()
    }

    open spec fn name_post(&self, r: Result<String, Error>) -> bool {
        exists|inner: Result<String, Error>|
            self.inner_spec().name_post(inner) && #[trigger] Self::caught(inner, self.handler(), r)
    }

    fn name(&self) -> (r: Result<String, Error>) {
        CatchError::<E, F, ErrType>::name(self)
    }
}

impl<T: Animal> Animal for &T {
    open spec fn name_ready(&self) -> bool {
        (**self).name_ready()
    }

    open spec fn name_post(&self, r: Result<String, Error>) -> bool {
        (**self).name_post(r)
    }

    fn name(&self) -> (r: Result<String, Error>) {
        T::name(self)
    }
}

} // verus!
