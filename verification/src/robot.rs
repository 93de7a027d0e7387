//! A robot description as a whole.

use vstd::prelude::*;
use crate::names::{last_position, lemma_last_position, lemma_last_position_is, NameIndex};
use crate::wrappers::material_and_mesh::{Material, MaterialView};
use crate::wrappers::urdf::{JointView, JointWrapper, LinkView, LinkWrapper, UrdfLinkage};

verus! {

/// A robot: a name, links, the joints between them, and named materials.
///
/// Nothing is asked of the lists. Two links may have one name, in which case
/// the later one counts; a joint may name links that are not there.
#[derive(Clone, Debug, PartialEq, Eq)]
pub struct Robot {
    pub name: String,
    pub links: Vec<LinkWrapper>,
    pub joints: Vec<JointWrapper>,
    pub materials: Vec<Material>,
}

/// A [`Robot`] with its texts as sequences of characters.
pub struct RobotView {
    pub name: Seq<char>,
    pub links: Seq<LinkView>,
    pub joints: Seq<JointView>,
    pub materials: Seq<MaterialView>,
}

impl View for Robot {
    type V = RobotView;

    open spec fn view(&self) -> RobotView {
        RobotView {
            name: self.name@,
            links: self.links.deep_view(),
            joints: self.joints.deep_view(),
            materials: self.materials.deep_view(),
        }
    }
}

impl RobotView {
    /// The names of the links, in their order.
    pub open spec fn link_names(self) -> Seq<Seq<char>> {
        Seq::new(self.links.len(), |i: int| self.links[i].name)
    }

    /// For each joint in its order, the name of its child link.
    pub open spec fn child_names(self) -> Seq<Seq<char>> {
        Seq::new(self.joints.len(), |i: int| self.joints[i].child)
    }

    /// The names of the materials, in their order.
    pub open spec fn material_names(self) -> Seq<Seq<char>> {
        Seq::new(self.materials.len(), |i: int| self.materials[i].name)
    }

    /// The link that counts for `name`: the last one of that name.
    pub open spec fn indexed_link(self, name: Seq<char>) -> Option<LinkView> {
        match last_position(self.link_names(), name) {
            Some(i) => Some(self.links[i]),
            None => None,
        }
    }

    /// The joint that drives the link `name`: the last one whose child has
    /// that name.
    pub open spec fn indexed_joint(self, name: Seq<char>) -> Option<JointView> {
        match last_position(self.child_names(), name) {
            Some(j) => Some(self.joints[j]),
            None => None,
        }
    }

    /// The robot is a tree in good order: no two links have one name, and
    /// the child of every joint is a link.
    pub open spec fn valid(self) -> bool {
        &&& self.link_names().no_duplicates()
        &&& forall|j: int|
            0 <= j < self.joints.len() ==> self.link_names().contains(
                #[trigger] self.joints[j].child,
            )
    }
}

impl Robot {
    /// The index of the links by name.
    pub fn index_links(&self) -> (index: NameIndex)
        ensures
            index.wf(),
            index@ == self@.link_names(),
    {
        let mut index = NameIndex::new();
        let mut i: usize = 0;
        while i < self.links.len()
            invariant
                i <= self.links.len(),
                index.wf(),
                index@ == self@.link_names().take(i as int),
            decreases self.links.len() - i,
        {
            index.push(self.links[i].name.as_str());
            assert(self@.link_names().take(i + 1) =~= self@.link_names().take(i as int).push(
                self.links[i as int].name@,
            ));
            i += 1;
        }
        assert(self@.link_names().take(i as int) =~= self@.link_names());
        index
    }

    /// The index of the joints by the name of the child.
    pub fn index_joints(&self) -> (index: NameIndex)
        ensures
            index.wf(),
            index@ == self@.child_names(),
    {
        let mut index = NameIndex::new();
        let mut i: usize = 0;
        while i < self.joints.len()
            invariant
                i <= self.joints.len(),
                index.wf(),
                index@ == self@.child_names().take(i as int),
            decreases self.joints.len() - i,
        {
            index.push(self.joints[i].child.as_str());
            assert(self@.child_names().take(i + 1) =~= self@.child_names().take(i as int).push(
                self.joints[i as int].child@,
            ));
            i += 1;
        }
        assert(self@.child_names().take(i as int) =~= self@.child_names());
        index
    }

    /// The index of the materials by name.
    pub fn index_materials(&self) -> (index: NameIndex)
        ensures
            index.wf(),
            index@ == self@.material_names(),
    {
        let mut index = NameIndex::new();
        let mut i: usize = 0;
        while i < self.materials.len()
            invariant
                i <= self.materials.len(),
                index.wf(),
                index@ == self@.material_names().take(i as int),
            decreases self.materials.len() - i,
        {
            index.push(self.materials[i].name.as_str());
            assert(self@.material_names().take(i + 1) =~= self@.material_names().take(
                i as int,
            ).push(self.materials[i as int].name@));
            i += 1;
        }
        assert(self@.material_names().take(i as int) =~= self@.material_names());
        index
    }

    /// The link that counts for `name`: the last one of that name.
    pub fn link(&self, name: &str) -> (link: Option<&LinkWrapper>)
        ensures
            link.deep_view() == self@.indexed_link(name@),
    {
        let key = name.to_owned();
        let mut i: usize = self.links.len();
        while i > 0
            invariant
                i <= self.links.len(),
                key@ == name@,
                forall|j: int| i <= j < self.links.len() ==> self@.link_names()[j] != name@,
            decreases i,
        {
            i -= 1;
            if self.links[i].name == key {
                proof {
                    assert(self@.link_names()[i as int] == name@);
                    assert(self@.links[i as int] == self.links[i as int]@);
                    lemma_last_position_is(self@.link_names(), name@, i as int);
                }
                return Some(&self.links[i]);
            }
        }
        proof {
            lemma_last_position(self@.link_names(), name@);
        }
        None
    }

    /// The joint that drives the link `child`: the last one whose child has
    /// that name.
    pub fn joint_of(&self, child: &str) -> (joint: Option<&JointWrapper>)
        ensures
            joint.deep_view() == self@.indexed_joint(child@),
    {
        let key = child.to_owned();
        let mut i: usize = self.joints.len();
        while i > 0
            invariant
                i <= self.joints.len(),
                key@ == child@,
                forall|j: int| i <= j < self.joints.len() ==> self@.child_names()[j] != child@,
            decreases i,
        {
            i -= 1;
            if self.joints[i].child == key {
                proof {
                    assert(self@.child_names()[i as int] == child@);
                    assert(self@.joints[i as int] == self.joints[i as int]@);
                    lemma_last_position_is(self@.child_names(), child@, i as int);
                }
                return Some(&self.joints[i]);
            }
        }
        proof {
            lemma_last_position(self@.child_names(), child@);
        }
        None
    }

    /// The link that counts for `name` together with the joint that drives
    /// it; nothing where no link has that name.
    pub fn linkage(&self, name: &str) -> (linkage: Option<UrdfLinkage<'_, '_>>)
        ensures
            match linkage {
                Some(found) => {
                    &&& self@.indexed_link(name@) == Some(found.link@)
                    &&& self@.indexed_joint(name@) == found.joint.deep_view()
                },
                None => self@.indexed_link(name@) is None,
            },
    {
        match self.link(name) {
            Some(link) => Some(UrdfLinkage { link, joint: self.joint_of(name) }),
            None => None,
        }
    }
}

/// A robot description that has been read.
#[derive(Clone, Debug, PartialEq, Eq)]
pub struct Urdf {
    pub robot: Robot,
}

impl View for Urdf {
    type V = RobotView;

    open spec fn view(&self) -> RobotView {
        self.robot@
    }
}

impl DeepView for Urdf {
    type V = RobotView;

    open spec fn deep_view(&self) -> RobotView {
        self.robot@
    }
}

} // verus!
