use vstd::prelude::*;

verus! {

/// True when no two elements of `s` are equal.
pub open spec fn no_duplicates(s: Seq<Seq<char>>) -> bool {
    forall|i: int, j: int| 0 <= i < j < s.len() ==> s[i] != s[j]
}

/// The names of `v`, each as its sequence of characters.
pub open spec fn names_of(v: Seq<String>) -> Seq<Seq<char>> {
    v.map_values(|s: String| s@)
}

/// The error of `NameRegistry::add`: the name is already registered.
#[derive(Debug, Clone, Copy, PartialEq, Eq, Structural)]
pub struct AlreadyExists;

/// The known names, in the order in which they were added.
pub struct NameRegistry {
    names: Vec<String>,
}

impl View for NameRegistry {
    type V = Seq<Seq<char>>;

    closed spec fn view(&self) -> Seq<Seq<char>> {
        names_of(self.names@)
    }
}

impl NameRegistry {
    /// No name occurs twice.
    #[verifier::type_invariant]
    spec fn inv(&self) -> bool {
        no_duplicates(names_of(self.names@))
    }

    /// A registry that holds no name.
    pub fn new() -> (r: NameRegistry)
        ensures
            r@ == Seq::<Seq<char>>::empty(),
    {
        let v: Vec<String> = Vec::new();
        assert(names_of(v@) =~= Seq::<Seq<char>>::empty());
        NameRegistry { names: v }
    }

    /// The registry as the service starts with it: the one name "Divit".
    pub fn seeded() -> (r: NameRegistry)
        ensures
            r@ == seq![initial_name()],
    {
        let mut r = NameRegistry::new();
        let _added = r.add(String::from_str("Divit"));
        proof {
            reveal_strlit("Divit");
        }
        r
    }

    /// The number of registered names.
    pub fn len(&self) -> (r: usize)
        ensures
            r == self@.len(),
    {
        self.names.len()
    }

    /// Whether `name` is registered, compared character by character.
    pub fn contains(&self, name: &String) -> (r: bool)
        ensures
            r == self@.contains(name@),
    {
        let mut i: usize = 0;
        while i < self.names.len()
            invariant
                0 <= i <= self.names@.len(),
                forall|k: int| 0 <= k < i ==> self@[k] != name@,
            decreases self.names@.len() - i,
        {
            assert(self@[i as int] == self.names@[i as int]@);
            if self.names[i] == *name {
                return true;
            }
            i = i + 1;
        }
        proof {
            if self@.contains(name@) {
                let k = choose|k: int| 0 <= k < self@.len() && self@[k] == name@;
                assert(self@[k] == name@);
            }
        }
        false
    }

    /// A copy of all names, in insertion order; no name occurs twice.
    pub fn list(&self) -> (r: Vec<String>)
        ensures
            names_of(r@) == self@,
            no_duplicates(names_of(r@)),
    {
        proof {
            use_type_invariant(self);
        }
        let r = self.names.clone();
        assert(names_of(r@) =~= self@);
        r
    }

    /// Appends `name` unless it is already registered; then fails and leaves
    /// the registry as it was.
    pub fn add(&mut self, name: String) -> (r: Result<(), AlreadyExists>)
        ensures
            no_duplicates(final(self)@),
            old(self)@.contains(name@) <==> r is Err,
            r is Ok ==> final(self)@ == old(self)@.push(name@),
            r is Err ==> final(self)@ == old(self)@,
    {
        proof {
            use_type_invariant(&*self);
        }
        if self.contains(&name) {
            return Err(AlreadyExists);
        }
        let ghost before = self@;
        // The field cannot be borrowed mutably under the invariant: take the
        // list out, extend it, and put a registry back whole.
        let mut taken = NameRegistry::new();
        core::mem::swap(self, &mut taken);
        let mut names = taken.names;
        names.push(name);
        proof {
            assert(names_of(names@) =~= before.push(name@));
            assert forall|i: int, j: int|
                0 <= i < j < names@.len() implies names_of(names@)[i] != names_of(names@)[j] by {
                if j == before.len() {
                    assert(before[i] == names_of(names@)[i]);
                }
            }
        }
        *self = NameRegistry { names };
        Ok(())
    }
}

/// The name that a new service starts with.
pub open spec fn initial_name() -> Seq<char> {
    "Divit"@
}

} // verus!
