use vstd::prelude::*;
use vstd::std_specs::convert::FromSpec;

verus! {

/// What travels along every edge of the DSP graph. A signal is either nothing (`Empty`),
/// a single value, or a vector of values (one per parallel chain); what a signal
/// means is up to the module that reads it.
#[derive(Debug)]
pub enum Signal<T> {
    Empty(()),
    Single(T),
    Multi(Vec<T>),
}

impl<T: Clone> Clone for Signal<T> {
    /// Clones the signal variant by variant, each value by `T::clone`.
    fn clone(&self) -> (c: Self)
        ensures
            (c is Empty) == (self is Empty),
            (c is Single) == (self is Single),
            c.values().len() == self.values().len(),
            forall|i: int|
                0 <= i < self.values().len() ==> cloned::<T>(self.values()[i], #[trigger] c.values()[i]),
    {
        match self {
            Signal::Empty(_) => Signal::Empty(()),
            Signal::Single(v) => Signal::Single(v.clone()),
            Signal::Multi(v) => Signal::Multi(v.clone()),
        }
    }
}

/// A value on its own makes a `Single` signal.
impl<T> From<T> for Signal<T> {
    fn from(value: T) -> (s: Self) {
        Signal::Single(value)
    }
}

impl<T> vstd::std_specs::convert::FromSpecImpl<T> for Signal<T> {
    open spec fn obeys_from_spec() -> bool {
        true
    }

    open spec fn from_spec(v: T) -> Self {
        Signal::Single(v)
    }
}

/// The texts in `parts`, with `sep` between each two neighbours.
pub open spec fn join(parts: Seq<Seq<char>>, sep: Seq<char>) -> Seq<char>
    decreases parts.len(),
{
    if parts.len() == 0 {
        Seq::empty()
    } else if parts.len() == 1 {
        parts[0]
    } else {
        join(parts.drop_last(), sep) + sep + parts.last()
    }
}

/// Calls `format!("{:?}", v)`: the text that `T`'s own `Debug` impl writes for `v`.
/// Nothing is stated of that text, which is up to each `Debug` impl.
#[verifier::external_body]
fn debug_text<T: std::fmt::Debug>(v: &T) -> String {
    format!("{:?}", v)
}

impl<T> Signal<T> {
    /// The values that the signal carries, in order: none for `Empty`, one for
    /// `Single`, and the vector's elements for `Multi`.
    pub open spec fn values(&self) -> Seq<T> {
        match self {
            Signal::Empty(_) => Seq::empty(),
            Signal::Single(v) => seq![*v],
            Signal::Multi(v) => v@,
        }
    }

    /// The text of a signal, given the debug text of each value it carries:
    /// `()`, `Single<v>`, or `Multi<[v0, v1, ...]>`.
    pub open spec fn text_with(&self, parts: Seq<Seq<char>>) -> Seq<char> {
        match self {
            Signal::Empty(_) => "()"@,
            Signal::Single(_) => "Single<"@ + parts[0] + ">"@,
            Signal::Multi(_) => "Multi<["@ + join(parts, ", "@) + "]>"@,
        }
    }

    /// The one value of a signal that carries exactly one: a `Single`, or a
    /// `Multi` of length one. The other signals are refused (the call panics).
    pub fn unwrap(self) -> (v: T)
        requires
            self.values().len() == 1,
        ensures
            v == self.values()[0],
            self is Single ==> v == self->Single_0,
            self is Multi ==> v == self->Multi_0@[0],
    {
        match self {
            Signal::Empty(_) => unreached(),
            Signal::Single(v) => v,
            Signal::Multi(v) => {
                let mut v = v;
                match v.pop() {
                    Some(e) => e,
                    None => unreached(),
                }
            },
        }
    }

    /// All values of a signal as a vector: `[v]` for `Single(v)`, the vector
    /// itself for `Multi`. `Empty` is refused (the call panics).
    pub fn unwrap_multi(self) -> (vs: Vec<T>)
        requires
            !(self is Empty),
        ensures
            vs@ == self.values(),
            self is Single ==> vs@ == seq![self->Single_0],
            self is Multi ==> vs@ == self->Multi_0@,
    {
        match self {
            Signal::Empty(_) => unreached(),
            Signal::Single(v) => vec![v],
            Signal::Multi(v) => v,
        }
    }

    /// A text for the signal: `()` for `Empty`, `Single<v>` for a single
    /// value and `Multi<[v0, v1, ...]>` for a vector, each value written by its
    /// `Debug` impl.
    pub fn as_string(self) -> (s: String)
        where T: std::fmt::Debug,
        ensures
            exists|parts: Seq<Seq<char>>|
                parts.len() == self.values().len() && s@ == #[trigger] self.text_with(parts),
    {
        match self {
            Signal::Empty(_) => {
                let s = String::from_str("()");
                assert(s@ == self.text_with(Seq::empty()));
                s
            },
            Signal::Single(v) => {
                let d = debug_text(&v);
                let mut s = String::from_str("Single<");
                s.append(d.as_str());
                s.append(">");
                assert(s@ == self.text_with(seq![d@]));
                s
            },
            Signal::Multi(v) => {
                let mut s = String::from_str("Multi<[");
                let ghost mut parts: Seq<Seq<char>> = Seq::empty();
                let n = v.len();
                let mut i: usize = 0;
                while i < n
                    invariant
                        n == v.len(),
                        i <= n,
                        parts.len() == i,
                        s@ == "Multi<["@ + join(parts, ", "@),
                    decreases n - i,
                {
                    let d = debug_text(&v[i]);
                    let ghost old_parts = parts;
                    if i > 0 {
                        s.append(", ");
                    }
                    s.append(d.as_str());
                    proof {
                        parts = parts.push(d@);
                        assert(parts.drop_last() =~= old_parts);
                    }
                    i = i + 1;
                }
                s.append("]>");
                assert(s@ =~= self.text_with(parts));
                s
            },
        }
    }
}

/// Wrapping a value in a signal and unwrapping it gives the value back:
/// `Signal::from(v)` carries exactly one value, and that value is `v`, so
/// `Signal::from(v).unwrap() == v`.
pub proof fn lemma_from_then_unwrap<T>(v: T)
    ensures
        <Signal<T> as FromSpec<T>>::obeys_from_spec(),
        <Signal<T> as FromSpec<T>>::from_spec(v).values().len() == 1,
        <Signal<T> as FromSpec<T>>::from_spec(v).values()[0] == v,
{
}

/// `unwrap` and `unwrap_multi` agree: every signal that `unwrap` accepts is
/// accepted by `unwrap_multi` too, which returns the one-element vector of the
/// value that `unwrap` returns.
pub proof fn lemma_unwrap_agrees_with_unwrap_multi<T>(s: Signal<T>)
    requires
        s.values().len() == 1,
    ensures
        !(s is Empty),
        s.values() == seq![s.values()[0]],
{
    assert(s.values() =~= seq![s.values()[0]]);
}

/// The values of a signal are exactly what it holds, in order: none for
/// `Empty`, the one value of `Single(x)`, and, for `Multi(v)` of any length,
/// the elements of `v` index by index (so `unwrap_multi` hands `v` back as it is).
pub proof fn lemma_values_are_contents<T>(s: Signal<T>)
    ensures
        s is Empty ==> s.values().len() == 0,
        s is Single ==> s.values().len() == 1 && s.values()[0] == s->Single_0,
        s is Multi ==> {
            &&& s.values().len() == s->Multi_0@.len()
            &&& forall|k: int| 0 <= k < s->Multi_0@.len() ==> #[trigger] s.values()[k] == s->Multi_0@[k]
        },
{
}

} // verus!
