use vstd::prelude::*;
use crate::error::EnvError;
use crate::getter::{deref_result, value_of, EnvGetter};
use crate::parse::EnvValue;

verus! {

impl<G, I: Fn(&str) -> Result<String, G>> EnvGetter<G, I> {
    /// Where every retrieval of `name` gives `text`, and `text` parses as the
    /// `T` whose view is `v`, a fallible read of `name` gives that value and no
    /// error, and a fallible read that keeps its value gives a reference to it.
    pub proof fn lemma_read_parsed<T: EnvValue>(&self, name: &str, text: Seq<char>, v: T::V)
        requires
            forall|got: Result<String, G>| #[trigger] self.retrieves(name, got) ==> got is Ok && got->Ok_0@ == text,
            T::from_text(text) == Some(v),
        ensures
            forall|r: Result<T, EnvError<G, T::Err>>| #[trigger] self.reads_try(name, r) ==> r is Ok && r->Ok_0@ == v,
            forall|r: Result<&T, EnvError<G, T::Err>>|
                #[trigger] self.reads_try(name, deref_result(r)) ==> r is Ok && r->Ok_0@ == v,
    {
    }

    /// Where every retrieval of `name` fails, a fallible read of `name` gives
    /// the retrieval error that came back, and never a parse error.
    pub proof fn lemma_read_retrieval_fails<T: EnvValue>(&self, name: &str)
        requires
            forall|got: Result<String, G>| #[trigger] self.retrieves(name, got) ==> got is Err,
        ensures
            forall|r: Result<T, EnvError<G, T::Err>>| #[trigger] self.reads_try(name, r) ==> {
                &&& r is Err
                &&& r->Err_0 is GetterError
                &&& self.retrieves(name, Err(r->Err_0->GetterError_0))
            },
    {
    }

    /// Where every retrieval of `name` gives a text that does not parse as a
    /// `T`, a fallible read of `name` gives a parse error, and never a
    /// retrieval error.
    pub proof fn lemma_read_parse_fails<T: EnvValue>(&self, name: &str)
        requires
            forall|got: Result<String, G>| #[trigger] self.retrieves(name, got) ==> got is Ok && T::from_text(got->Ok_0@) is None,
        ensures
            forall|r: Result<T, EnvError<G, T::Err>>| #[trigger] self.reads_try(name, r) ==> r is Err && r->Err_0 is ParseError,
    {
    }

    /// Where retrieving `name` has the one outcome `got`, and a value parsed
    /// from it would differ from `default`, a read with a default gives
    /// `default` exactly where the fallible read fails, and otherwise the value
    /// that the fallible read gives.
    pub proof fn lemma_read_or_falls_back<T: EnvValue>(&self, name: &str, default: T::V, got: Result<String, G>)
        requires
            forall|other: Result<String, G>| #[trigger] self.retrieves(name, other) ==> other == got,
            value_of::<T, G>(got) != Some(default),
        ensures
            forall|t: Result<T, EnvError<G, T::Err>>, r: T::V|
                #[trigger] self.reads_try(name, t) && #[trigger] self.reads_or::<T>(name, default, r) ==> {
                    &&& r == default <==> t is Err
                    &&& t is Ok ==> r == t->Ok_0@
                },
    {
    }

    /// Where retrieving `name` has one outcome, repeated reads of `name` with
    /// the same default give the same value.
    pub proof fn lemma_read_or_repeats<T: EnvValue>(&self, name: &str, default: T::V, got: Result<String, G>)
        requires
            forall|other: Result<String, G>| #[trigger] self.retrieves(name, other) ==> other == got,
        ensures
            forall|r1: T::V, r2: T::V|
                #[trigger] self.reads_or::<T>(name, default, r1) && #[trigger] self.reads_or::<T>(name, default, r2) ==> r1 == r2,
    {
    }

    /// Where retrieving `name` has one outcome, a read with a fallback producer
    /// gives the parsed value where the fallible read succeeds, and a value
    /// that the producer returns where it fails.
    pub proof fn lemma_read_or_else<T: EnvValue, V: FnOnce() -> T>(&self, name: &str, fallback: V, got: Result<String, G>)
        requires
            forall|other: Result<String, G>| #[trigger] self.retrieves(name, other) ==> other == got,
        ensures
            forall|t: Result<T, EnvError<G, T::Err>>, r: T|
                #[trigger] self.reads_try(name, t) && #[trigger] self.reads_or_else(name, fallback, r) ==> {
                    &&& t is Ok ==> r@ == t->Ok_0@
                    &&& t is Err ==> fallback.ensures((), r)
                },
    {
    }
}

} // verus!
