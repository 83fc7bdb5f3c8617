use vstd::prelude::*;
use crate::error::EnvError;
use crate::parse::EnvValue;

verus! {

/// Holds the function that retrieves configuration values by name, and reads
/// them as typed values.
#[verifier::reject_recursive_types(G)]
pub struct EnvGetter<G, I: Fn(&str) -> Result<String, G>> {
    getter: I,
}

/// The value that a retrieval outcome denotes as a `T`: none where retrieval
/// failed or its text does not parse.
pub open spec fn value_of<T: EnvValue, G>(got: Result<String, G>) -> Option<T::V> {
    match got {
        Ok(s) => T::from_text(s@),
        Err(_) => None,
    }
}

/// `r` is the result of a fallible read whose retrieval gave `got`: the
/// parsed value, the retrieval error unchanged, or a parse error.
pub open spec fn read_result<T: EnvValue, G>(
    got: Result<String, G>,
    r: Result<T, EnvError<G, T::Err>>,
) -> bool {
    match got {
        Err(g) => r == Err::<T, EnvError<G, T::Err>>(EnvError::GetterError(g)),
        Ok(s) => match T::from_text(s@) {
            Some(v) => r is Ok && r->Ok_0@ == v,
            None => r is Err && r->Err_0 is ParseError,
        },
    }
}

/// A result with its reference, where it holds one, replaced by the value
/// the reference points to.
pub open spec fn deref_result<T, E>(r: Result<&T, E>) -> Result<T, E> {
    match r {
        Ok(v) => Ok(*v),
        Err(e) => Err(e),
    }
}

/// Relies on `Box::leak`: the boxed value stays allocated for the rest of the
/// process and the returned reference points to it.
#[verifier::external_body]
fn leak<T: 'static>(value: T) -> (r: &'static T)
    ensures
        *r == value,
{
    Box::leak(Box::new(value))
}

impl<G, I: Fn(&str) -> Result<String, G>> EnvGetter<G, I> {
    /// The retrieval function.
    pub closed spec fn retriever(&self) -> I {
        self.getter
    }

    /// The retrieval function may be called with `name`.
    pub open spec fn can_retrieve(&self, name: &str) -> bool {
        self.retriever().requires((name,))
    }

    /// Retrieving `name` may give `got`.
    pub open spec fn retrieves(&self, name: &str, got: Result<String, G>) -> bool {
        self.retriever().ensures((name,), got)
    }

    /// `r` is a result that a fallible read of `name` may give.
    pub open spec fn reads_try<T: EnvValue>(&self, name: &str, r: Result<T, EnvError<G, T::Err>>) -> bool {
        exists|got: Result<String, G>| #[trigger] self.retrieves(name, got) && read_result(got, r)
    }

    /// Every retrieval of `name` gives a text that parses as a `T`.
    pub open spec fn always_reads<T: EnvValue>(&self, name: &str) -> bool {
        forall|got: Result<String, G>| #[trigger] self.retrieves(name, got) ==> value_of::<T, G>(got) is Some
    }

    /// `v` is the view of a value that a read of `name` may give.
    pub open spec fn reads_value<T: EnvValue>(&self, name: &str, v: T::V) -> bool {
        exists|got: Result<String, G>| #[trigger] self.retrieves(name, got) && value_of::<T, G>(got) == Some(v)
    }

    /// `r` is the view of a result that a read of `name` falling back on the
    /// view `default` may give.
    pub open spec fn reads_or<T: EnvValue>(&self, name: &str, default: T::V, r: T::V) -> bool {
        exists|got: Result<String, G>| #[trigger] self.retrieves(name, got) && r == match value_of::<T, G>(got) {
            Some(v) => v,
            None => default,
        }
    }

    /// `r` is a result that a read of `name` falling back on `fallback` may give.
    pub open spec fn reads_or_else<T: EnvValue, V: FnOnce() -> T>(&self, name: &str, fallback: V, r: T) -> bool {
        exists|got: Result<String, G>| #[trigger] self.retrieves(name, got) && match value_of::<T, G>(got) {
            Some(v) => r@ == v,
            None => fallback.ensures((), r),
        }
    }

    /// Wraps a retrieval function.
    pub fn new(getter: I) -> (r: Self)
        ensures
            r.retriever() == getter,
    {
        Self { getter }
    }

    /// Reads `name` as a `T`, handing back the retrieval error or the parse
    /// error where either step fails.
    pub fn owned_var_try<T: EnvValue>(&self, name: &str) -> (r: Result<T, EnvError<G, T::Err>>)
        requires
            self.can_retrieve(name),
        ensures
            self.reads_try(name, r),
    {
        let got = (self.getter)(name);
        assert(self.retrieves(name, got));
        match got {
            Err(g) => Err(EnvError::GetterError(g)),
            Ok(s) => match T::parse_text(s.as_str()) {
                Ok(v) => Ok(v),
                Err(p) => Err(EnvError::ParseError(p)),
            },
        }
    }

    /// Reads `name` as a `T` that the program requires: every retrieval of it
    /// must give a text that parses.
    pub fn owned_var<T: EnvValue>(&self, name: &str) -> (r: T)
        requires
            self.can_retrieve(name),
            self.always_reads::<T>(name),
        ensures
            self.reads_value::<T>(name, r@),
    {
        match self.owned_var_try::<T>(name) {
            Ok(v) => v,
            Err(_) => unreached(),
        }
    }

    /// Reads `name` as a `T`, or gives `default` where retrieval or parsing fails.
    pub fn owned_var_or<T: EnvValue>(&self, name: &str, default: T) -> (r: T)
        requires
            self.can_retrieve(name),
        ensures
            self.reads_or::<T>(name, default@, r@),
    {
        match self.owned_var_try::<T>(name) {
            Ok(v) => v,
            Err(_) => default,
        }
    }

    /// Reads `name` as a `T`, or, where retrieval or parsing fails, gives what
    /// `default` produces. `default` is called only then.
    pub fn owned_var_or_else<T: EnvValue, V: FnOnce() -> T>(&self, name: &str, default: V) -> (r: T)
        requires
            self.can_retrieve(name),
            default.requires(()),
        ensures
            self.reads_or_else(name, default, r),
    {
        match self.owned_var_try::<T>(name) {
            Ok(v) => v,
            Err(_) => default(),
        }
    }

    /// Reads `name` as a `T` kept for the rest of the process, handing back
    /// the retrieval error or the parse error where either step fails. Only a
    /// parsed value is leaked.
    pub fn var_try<T: EnvValue>(&self, name: &str) -> (r: Result<&'static T, EnvError<G, T::Err>>)
        requires
            self.can_retrieve(name),
        ensures
            self.reads_try(name, deref_result(r)),
    {
        match self.owned_var_try::<T>(name) {
            Ok(v) => Ok(leak(v)),
            Err(e) => Err(e),
        }
    }

    /// Reads `name` as a `T` that the program requires, kept for the rest of
    /// the process: every retrieval of it must give a text that parses.
    pub fn var<T: EnvValue>(&self, name: &str) -> (r: &'static T)
        requires
            self.can_retrieve(name),
            self.always_reads::<T>(name),
        ensures
            self.reads_value::<T>(name, r@),
    {
        match self.var_try::<T>(name) {
            Ok(v) => v,
            Err(_) => unreached(),
        }
    }
    /// Reads `name` as a `T` kept for the rest of the process, or gives
    /// `default` itself where retrieval or parsing fails.
    pub fn var_or<T: EnvValue>(&self, name: &str, default: &'static T) -> (r: &'static T)
        requires
            self.can_retrieve(name),
        ensures
            self.reads_or::<T>(name, default@, r@),
    {
        match self.var_try::<T>(name) {
            Ok(v) => v,
            Err(_) => default,
        }
    }

    /// Reads `name` as a `T` kept for the rest of the process, or, where
    /// retrieval or parsing fails, keeps and gives what `default` produces.
    /// `default` is called only then.
    pub fn var_or_else<T: EnvValue, V: FnOnce() -> T>(&self, name: &str, default: V) -> (r: &'static T)
        requires
            self.can_retrieve(name),
            default.requires(()),
        ensures
            self.reads_or_else(name, default, *r),
    {
        match self.var_try::<T>(name) {
            Ok(v) => v,
            Err(_) => leak(default()),
        }
    }
}

} // verus!
