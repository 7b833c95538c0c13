//! Values of script arguments and the variables that they may refer to.

use vstd::prelude::*;
use crate::text::str_eq;

verus! {

/// Argument to an instruction or condition that could be constant or a
/// variable.
#[derive(Debug, PartialEq, Eq)]
pub enum Value {
    /// No value was given yet.
    Empty,
    /// A literal value.
    Constant(String),
    /// The value of a variable, looked up when the value is resolved.
    Var(String),
}

/// The mathematical value of a [`Value`].
pub enum ValueView {
    Empty,
    Constant(Seq<char>),
    Var(Seq<char>),
}

impl View for Value {
    type V = ValueView;

    open spec fn view(&self) -> ValueView {
        match *self {
            Value::Empty => ValueView::Empty,
            Value::Constant(text) => ValueView::Constant(text@),
            Value::Var(name) => ValueView::Var(name@),
        }
    }
}

impl DeepView for Value {
    type V = ValueView;

    open spec fn deep_view(&self) -> ValueView {
        self@
    }
}

impl Clone for Value {
    fn clone(&self) -> (r: Self)
        ensures
            r == *self,
    {
        match self {
            Value::Empty => Value::Empty,
            Value::Constant(text) => Value::Constant(text.clone()),
            Value::Var(name) => Value::Var(name.clone()),
        }
    }
}

/// Why a value could not be resolved.
#[derive(Debug, PartialEq, Eq)]
pub enum ValueError {
    /// The value was never given.
    Empty,
    /// The value names a variable that is not defined.
    Undefined(String),
}

/// The mathematical value of a [`ValueError`].
pub enum ValueErrorView {
    Empty,
    Undefined(Seq<char>),
}

impl View for ValueError {
    type V = ValueErrorView;

    open spec fn view(&self) -> ValueErrorView {
        match *self {
            ValueError::Empty => ValueErrorView::Empty,
            ValueError::Undefined(name) => ValueErrorView::Undefined(name@),
        }
    }
}

impl ValueView {
    /// Whether a value was given.
    pub open spec fn is_some(self) -> bool {
        !(self is Empty)
    }

    /// The text that the value stands for under the variable bindings
    /// `vars`.
    pub open spec fn resolve(self, vars: Map<Seq<char>, Seq<char>>) -> Result<
        Seq<char>,
        ValueErrorView,
    > {
        match self {
            ValueView::Empty => Err(ValueErrorView::Empty),
            ValueView::Constant(text) => Ok(text),
            ValueView::Var(name) => if vars.contains_key(name) {
                Ok(vars[name])
            } else {
                Err(ValueErrorView::Undefined(name))
            },
        }
    }

    /// Like [`Self::resolve`], but a value that was never given is no error.
    pub open spec fn resolve_optional(self, vars: Map<Seq<char>, Seq<char>>) -> Result<
        Option<Seq<char>>,
        ValueErrorView,
    > {
        match self {
            ValueView::Empty => Ok(None),
            _ => match self.resolve(vars) {
                Ok(text) => Ok(Some(text)),
                Err(e) => Err(e),
            },
        }
    }
}

/// The bindings that a list of assignments leaves: each name is bound to
/// the value that was assigned to it last.
pub open spec fn bindings(entries: Seq<(Seq<char>, Seq<char>)>) -> Map<Seq<char>, Seq<char>>
    decreases entries.len(),
{
    if entries.len() == 0 {
        Map::empty()
    } else {
        bindings(entries.drop_last()).insert(entries.last().0, entries.last().1)
    }
}

/// Variable bindings of an evaluation.
#[derive(Debug)]
pub struct Vars {
    /// The assignments made, oldest first.
    pub entries: Vec<(String, String)>,
}

impl View for Vars {
    type V = Map<Seq<char>, Seq<char>>;

    open spec fn view(&self) -> Map<Seq<char>, Seq<char>> {
        bindings(self.entries.deep_view())
    }
}

impl Vars {
    /// No bindings.
    pub fn new() -> (r: Self)
        ensures
            r@ == Map::<Seq<char>, Seq<char>>::empty(),
    {
        let r = Vars { entries: Vec::new() };
        assert(r.entries.deep_view() =~= Seq::empty());
        r
    }

    /// Binds `name` to `value`, replacing an earlier binding of the name.
    pub fn insert(&mut self, name: String, value: String)
        ensures
            final(self)@ == old(self)@.insert(name@, value@),
    {
        let ghost before = self.entries;
        self.entries.push((name, value));
        proof {
            crate::text::lemma_push_deep_view(before, self.entries, (name, value));
            assert(self.entries.deep_view().drop_last() =~= before.deep_view());
        }
    }

    /// The value bound to `name`.
    pub fn get(&self, name: &str) -> (r: Option<&String>)
        ensures
            match r {
                Some(value) => self@.contains_key(name@) && value@ == self@[name@],
                None => !self@.contains_key(name@),
            },
    {
        let mut i = self.entries.len();
        let ghost all = self.entries.deep_view();
        assert(all.take(i as int) =~= all);
        while i > 0
            invariant
                i <= self.entries.len(),
                all == self.entries.deep_view(),
                bindings(all).contains_key(name@) == bindings(all.take(i as int)).contains_key(
                    name@,
                ),
                bindings(all).contains_key(name@) ==> bindings(all)[name@] == bindings(
                    all.take(i as int),
                )[name@],
            decreases i,
        {
            i -= 1;
            proof {
                assert(all.take(i + 1).drop_last() =~= all.take(i as int));
                assert(all.take(i + 1).last() == all[i as int]);
                assert(all[i as int] == (self.entries[i as int].0@, self.entries[i as int].1@));
            }
            if str_eq(self.entries[i].0.as_str(), name) {
                return Some(&self.entries[i].1);
            }
        }
        assert(all.take(0) =~= Seq::empty());
        None
    }

    /// Whether `name` is bound.
    pub fn contains_key(&self, name: &str) -> (r: bool)
        ensures
            r == self@.contains_key(name@),
    {
        self.get(name).is_some()
    }
}

impl Clone for Vars {
    fn clone(&self) -> (r: Self)
        ensures
            r@ == self@,
    {
        let mut entries: Vec<(String, String)> = Vec::new();
        let mut i: usize = 0;
        assert(entries.deep_view() =~= self.entries.deep_view().take(0));
        while i < self.entries.len()
            invariant
                i <= self.entries.len(),
                entries.deep_view() == self.entries.deep_view().take(i as int),
            decreases self.entries.len() - i,
        {
            let ghost before = entries;
            let item = (self.entries[i].0.clone(), self.entries[i].1.clone());
            entries.push(item);
            proof {
                crate::text::lemma_push_deep_view(before, entries, item);
                assert(entries.deep_view() =~= self.entries.deep_view().take(i + 1));
            }
            i += 1;
        }
        assert(self.entries.deep_view().take(self.entries.len() as int)
            =~= self.entries.deep_view());
        Vars { entries }
    }
}

impl Value {
    /// Whether a value was given.
    pub fn is_some(&self) -> (r: bool)
        ensures
            r == self@.is_some(),
    {
        !matches!(self, Value::Empty)
    }

    /// Obtain the text that this value stands for.
    pub fn get(&self, vars: &Vars) -> (r: Result<String, ValueError>)
        ensures
            match self@.resolve(vars@) {
                Ok(text) => r matches Ok(got) && got@ == text,
                Err(e) => r matches Err(err) && err@ == e,
            },
    {
        match self {
            Value::Empty => Err(ValueError::Empty),
            Value::Constant(text) => Ok(text.clone()),
            Value::Var(name) => match vars.get(name.as_str()) {
                Some(value) => Ok(value.clone()),
                None => Err(ValueError::Undefined(name.clone())),
            },
        }
    }

    /// Obtain the text that this value stands for, or nothing where no
    /// value was given.
    pub fn get_as_option(&self, vars: &Vars) -> (r: Result<Option<String>, ValueError>)
        ensures
            match self@.resolve_optional(vars@) {
                Ok(text) => r matches Ok(got) && got.deep_view() == text,
                Err(e) => r matches Err(err) && err@ == e,
            },
    {
        match self {
            Value::Empty => Ok(None),
            _ => match self.get(vars) {
                Ok(text) => Ok(Some(text)),
                Err(e) => Err(e),
            },
        }
    }
}

} // verus!
