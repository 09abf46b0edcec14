//! Environments: what each name is bound to. An environment may enclose
//! another; a name that the inner one does not bind is looked up in the
//! outer one.

use vstd::prelude::*;

use crate::object::{ObjectEnum, ObjectModel};
use crate::text::same_text;

verus! {

/// The bindings that a list of names and a list of values add to `base`, a
/// later pair overriding an earlier one of the same name.
pub open spec fn bound(
    names: Seq<String>,
    values: Seq<ObjectEnum>,
    base: Map<Seq<char>, ObjectModel>,
) -> Map<Seq<char>, ObjectModel>
    decreases names.len(),
{
    if names.len() == 0 {
        base
    } else {
        bound(names.drop_last(), values.drop_last(), base).insert(names.last()@, values.last()@)
    }
}

/// What a list of scopes makes visible, the innermost scope first: a name is
/// bound as the first scope that binds it binds it.
pub open spec fn visible(scopes: Seq<Map<Seq<char>, ObjectModel>>) -> Map<Seq<char>, ObjectModel>
    decreases scopes.len(),
{
    if scopes.len() == 0 {
        Map::empty()
    } else {
        visible(scopes.drop_first()).union_prefer_right(scopes[0])
    }
}

/// The bindings that pairs add to `base` are those of `base`, overridden by
/// what the pairs bind by themselves.
proof fn lemma_bound_over_base(
    names: Seq<String>,
    values: Seq<ObjectEnum>,
    base: Map<Seq<char>, ObjectModel>,
)
    ensures
        bound(names, values, base) == base.union_prefer_right(
            bound(names, values, Map::empty()),
        ),
    decreases names.len(),
{
    let alone = bound(names, values, Map::empty());
    if names.len() == 0 {
        assert(base.union_prefer_right(alone) =~= base);
    } else {
        lemma_bound_over_base(names.drop_last(), values.drop_last(), base);
        assert(bound(names, values, base) =~= base.union_prefer_right(alone));
    }
}

/// The last pair with a given name decides what the name is bound to.
proof fn lemma_found(
    names: Seq<String>,
    values: Seq<ObjectEnum>,
    base: Map<Seq<char>, ObjectModel>,
    index: int,
)
    requires
        names.len() == values.len(),
        0 <= index < names.len(),
        forall|k: int| index < k < names.len() ==> (#[trigger] names[k])@ != names[index]@,
    ensures
        bound(names, values, base).contains_key(names[index]@),
        bound(names, values, base)[names[index]@] == values[index]@,
    decreases names.len(),
{
    if index < names.len() - 1 {
        lemma_found(names.drop_last(), values.drop_last(), base, index);
    }
}

/// A name that no pair holds is bound as the scopes around bind it.
proof fn lemma_not_found(
    names: Seq<String>,
    values: Seq<ObjectEnum>,
    base: Map<Seq<char>, ObjectModel>,
    name: Seq<char>,
)
    requires
        names.len() == values.len(),
        forall|k: int| 0 <= k < names.len() ==> (#[trigger] names[k])@ != name,
    ensures
        bound(names, values, base).contains_key(name) == base.contains_key(name),
        base.contains_key(name) ==> bound(names, values, base)[name] == base[name],
    decreases names.len(),
{
    if names.len() > 0 {
        lemma_not_found(names.drop_last(), values.drop_last(), base, name);
    }
}

/// Replacing the value of the last pair with a given name binds that name
/// anew and leaves the other names as they were.
proof fn lemma_rebind(
    names: Seq<String>,
    values: Seq<ObjectEnum>,
    base: Map<Seq<char>, ObjectModel>,
    index: int,
    value: ObjectEnum,
)
    requires
        names.len() == values.len(),
        0 <= index < names.len(),
        forall|k: int| index < k < names.len() ==> (#[trigger] names[k])@ != names[index]@,
    ensures
        bound(names, values.update(index, value), base) == bound(names, values, base).insert(
            names[index]@,
            value@,
        ),
    decreases names.len(),
{
    let updated = values.update(index, value);
    if index == names.len() - 1 {
        assert(updated.drop_last() =~= values.drop_last());
    } else {
        assert(updated.drop_last() =~= values.drop_last().update(index, value));
        lemma_rebind(names.drop_last(), values.drop_last(), base, index, value);
    }
}

/// A scope of bindings, with the scope that encloses it, if any.
#[derive(Debug)]
pub struct Environment {
    names: Vec<String>,
    values: Vec<ObjectEnum>,
    outer: Option<Box<Environment>>,
}

impl Environment {
    /// What each visible name is bound to.
    pub closed spec fn bindings(&self) -> Map<Seq<char>, ObjectModel>
        decreases self,
    {
        bound(
            self.names@,
            self.values@,
            match self.outer {
                Some(outer) => outer.bindings(),
                None => Map::empty(),
            },
        )
    }

    /// What this scope binds by itself, whatever the scopes around it bind.
    pub closed spec fn local(&self) -> Map<Seq<char>, ObjectModel> {
        bound(self.names@, self.values@, Map::empty())
    }

    /// The scopes of this environment, the innermost first: for each, what
    /// it binds by itself.
    pub closed spec fn scopes(&self) -> Seq<Map<Seq<char>, ObjectModel>>
        decreases self,
    {
        match self.outer {
            Some(outer) => seq![self.local()] + outer.scopes(),
            None => seq![self.local()],
        }
    }

    /// What an environment binds is what its scopes make visible.
    pub proof fn lemma_bindings_are_visible(&self)
        ensures
            self@ == visible(self.scopes()),
        decreases self,
    {
        lemma_bound_over_base(self.names@, self.values@, self.base());
        match self.outer {
            Some(outer) => {
                outer.lemma_bindings_are_visible();
                assert(self.scopes()[0] == self.local());
                assert(self.scopes().drop_first() =~= outer.scopes());
            },
            None => {
                assert(self.scopes()[0] == self.local());
                assert(self.scopes().drop_first() =~= Seq::empty());
                assert(visible(self.scopes().drop_first()) =~= Map::empty());
            },
        }
    }

    /// The environment's invariant: every name has its value, in this scope
    /// and in those around it.
    pub closed spec fn well_formed(&self) -> bool
        decreases self,
    {
        &&& self.names.len() == self.values.len()
        &&& match self.outer {
            Some(outer) => outer.well_formed(),
            None => true,
        }
    }

    /// An environment of one scope that binds no name.
    pub fn New() -> (env: Self)
        ensures
            env.well_formed(),
            env@ == Map::<Seq<char>, ObjectModel>::empty(),
            env.scopes() == seq![Map::<Seq<char>, ObjectModel>::empty()],
    {
        Environment { names: Vec::new(), values: Vec::new(), outer: None }
    }

    /// A new scope inside `outer`. The new scope binds no name by itself,
    /// so the environment starts with the bindings of `outer`; what is bound
    /// in it later is bound in the new scope alone.
    pub fn NewEnclosed(outer: Environment) -> (env: Self)
        requires
            outer.well_formed(),
        ensures
            env.well_formed(),
            env@ == outer@,
            env.scopes() == seq![Map::<Seq<char>, ObjectModel>::empty()] + outer.scopes(),
    {
        Environment { names: Vec::new(), values: Vec::new(), outer: Some(Box::new(outer)) }
    }

    /// The index of the last pair of this scope whose name is `name`.
    fn find(&self, name: &str) -> (found: Option<usize>)
        requires
            self.well_formed(),
        ensures
            match found {
                Some(index) => index < self.names.len() && self.names[index as int]@ == name@
                    && forall|k: int|
                    index < k < self.names.len() ==> (#[trigger] self.names[k])@ != name@,
                None => forall|k: int|
                    0 <= k < self.names.len() ==> (#[trigger] self.names[k])@ != name@,
            },
    {
        let mut i = self.names.len();
        while i > 0
            invariant
                i <= self.names.len(),
                forall|k: int| i <= k < self.names.len() ==> (#[trigger] self.names[k])@ != name@,
            decreases i,
        {
            i -= 1;
            if same_text(self.names[i].as_str(), name) {
                return Some(i);
            }
        }
        None
    }

    /// The value that `name` is bound to, in this scope or, failing that, in
    /// the nearest scope around it that binds the name.
    pub fn Lookup(&self, name: &str) -> (value: Option<ObjectEnum>)
        requires
            self.well_formed(),
        ensures
            match value {
                Some(object) => self@.contains_key(name@) && object@ == self@[name@],
                None => !self@.contains_key(name@),
            },
        decreases self,
    {
        match self.find(name) {
            Some(index) => {
                proof {
                    lemma_found(self.names@, self.values@, self.base(), index as int);
                }
                Some(self.values[index].clone())
            },
            None => {
                proof {
                    lemma_not_found(self.names@, self.values@, self.base(), name@);
                }
                match &self.outer {
                    Some(outer) => outer.Lookup(name),
                    None => None,
                }
            },
        }
    }

    /// Binds `name` to `value` in the innermost scope. The scopes around it
    /// stay as they are.
    pub fn Bind(&mut self, name: &str, value: ObjectEnum)
        requires
            old(self).well_formed(),
        ensures
            final(self).well_formed(),
            final(self)@ == old(self)@.insert(name@, value@),
            final(self).scopes() == old(self).scopes().update(
                0,
                old(self).scopes()[0].insert(name@, value@),
            ),
    {
        match self.find(name) {
            Some(index) => {
                proof {
                    lemma_rebind(self.names@, self.values@, self.base(), index as int, value);
                    lemma_rebind(self.names@, self.values@, Map::empty(), index as int, value);
                }
                self.values.set(index, value);
            },
            None => {
                self.names.push(String::from_str(name));
                self.values.push(value);
                assert(self.names@.drop_last() =~= old(self).names@);
                assert(self.values@.drop_last() =~= old(self).values@);
            },
        }
    }

    /// The bindings of the scopes around this one.
    closed spec fn base(&self) -> Map<Seq<char>, ObjectModel> {
        match self.outer {
            Some(outer) => outer.bindings(),
            None => Map::empty(),
        }
    }
}

impl View for Environment {
    type V = Map<Seq<char>, ObjectModel>;

    closed spec fn view(&self) -> Map<Seq<char>, ObjectModel> {
        self.bindings()
    }
}

} // verus!
