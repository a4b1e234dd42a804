//! The four categories, their fixed order and their directory names.

use vstd::prelude::*;

verus! {

/// One of the four categories. The set is closed and its order is fixed:
/// Projects, Areas, Resources, Archives.
#[derive(Debug, Clone, Copy, PartialEq, Eq, Structural, Hash)]
pub enum Para {
    Projects,
    Areas,
    Resources,
    Archives,
}

impl Para {
    /// Position of the category in the fixed order, counted from zero.
    pub open spec fn ordinal_spec(self) -> nat {
        match self {
            Para::Projects => 0,
            Para::Areas => 1,
            Para::Resources => 2,
            Para::Archives => 3,
        }
    }

    /// The decimal digit that stands for the ordinal in indexed names.
    pub open spec fn digit_spec(self) -> char {
        match self {
            Para::Projects => '0',
            Para::Areas => '1',
            Para::Resources => '2',
            Para::Archives => '3',
        }
    }

    /// The canonical name of the category.
    pub open spec fn name_spec(self) -> Seq<char> {
        match self {
            Para::Projects => "Projects"@,
            Para::Areas => "Areas"@,
            Para::Resources => "Resources"@,
            Para::Archives => "Archives"@,
        }
    }

    /// The name of the category's directory: the canonical name, in indexed
    /// mode behind the ordinal and an underscore.
    pub open spec fn dir_name_spec(self, indexed: bool) -> Seq<char> {
        if indexed {
            seq![self.digit_spec(), '_'] + self.name_spec()
        } else {
            self.name_spec()
        }
    }

    /// The category at a position of the fixed order.
    pub open spec fn at_spec(i: nat) -> Para
        recommends
            i < 4,
    {
        if i == 0 {
            Para::Projects
        } else if i == 1 {
            Para::Areas
        } else if i == 2 {
            Para::Resources
        } else {
            Para::Archives
        }
    }

    pub fn ordinal(self) -> (r: usize)
        ensures
            r == self.ordinal_spec(),
            r < 4,
    {
        match self {
            Para::Projects => 0,
            Para::Areas => 1,
            Para::Resources => 2,
            Para::Archives => 3,
        }
    }

    /// The category that follows in the fixed order, `None` after Archives.
    pub fn next(self) -> (r: Option<Para>)
        ensures
            self.ordinal_spec() < 3 ==> r == Some(Para::at_spec(self.ordinal_spec() + 1)),
            self.ordinal_spec() == 3 ==> r.is_none(),
    {
        match self {
            Para::Projects => Some(Para::Areas),
            Para::Areas => Some(Para::Resources),
            Para::Resources => Some(Para::Archives),
            Para::Archives => None,
        }
    }

    pub fn name(self) -> (r: &'static str)
        ensures
            r@ == self.name_spec(),
    {
        match self {
            Para::Projects => "Projects",
            Para::Areas => "Areas",
            Para::Resources => "Resources",
            Para::Archives => "Archives",
        }
    }

    pub fn dir_name(self, indexed: bool) -> (r: &'static str)
        ensures
            r@ == self.dir_name_spec(indexed),
    {
        proof {
            reveal_strlit("Projects");
            reveal_strlit("Areas");
            reveal_strlit("Resources");
            reveal_strlit("Archives");
            reveal_strlit("0_Projects");
            reveal_strlit("1_Areas");
            reveal_strlit("2_Resources");
            reveal_strlit("3_Archives");
        }
        if indexed {
            let r = match self {
                Para::Projects => "0_Projects",
                Para::Areas => "1_Areas",
                Para::Resources => "2_Resources",
                Para::Archives => "3_Archives",
            };
            assert(r@ =~= self.dir_name_spec(indexed));
            r
        } else {
            self.name()
        }
    }

    /// Positions and categories correspond one to one.
    pub proof fn lemma_ordinal_round_trip(self)
        ensures
            self.ordinal_spec() < 4,
            Para::at_spec(self.ordinal_spec()) == self,
    {
    }

    /// A directory name has five characters or more, holds no separator, and
    /// belongs to one category only within a naming mode.
    pub proof fn lemma_dir_names(a: Para, b: Para, indexed: bool)
        ensures
            a.dir_name_spec(indexed).len() >= 5,
            !a.dir_name_spec(indexed).contains('/'),
            a != b ==> a.dir_name_spec(indexed) != b.dir_name_spec(indexed),
    {
        reveal_strlit("Projects");
        reveal_strlit("Areas");
        reveal_strlit("Resources");
        reveal_strlit("Archives");
        let n = a.dir_name_spec(indexed);
        let m = b.dir_name_spec(indexed);
        assert forall|i: int| 0 <= i < n.len() implies n[i] != '/' by {
            if indexed {
                if i >= 2 {
                    assert(n[i] == a.name_spec()[i - 2]);
                }
            }
        }
        if a != b {
            if indexed {
                assert(n[0] == a.digit_spec());
                assert(m[0] == b.digit_spec());
            } else {
                if n.len() == m.len() {
                    assert(n[0] != m[0]);
                }
            }
        }
    }
}

} // verus!
