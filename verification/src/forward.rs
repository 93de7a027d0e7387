//! From a robot description to a graph of entities.

use vstd::prelude::*;
use crate::error::{TranslationError, TranslationErrorView};
use crate::flags::{ColliderFlag, JointFlag, RigidBodyFlag};
use crate::graph::{
    link_shape, link_solver_groups, up_axis_correction, EntityGraph, EntityNodeView,
};
use crate::names::{
    distinct, lemma_distinct, lemma_distinct_absorbs, lemma_distinct_of_distinct,
    lemma_distinct_of_parts, lemma_last_position, lemma_last_position_is,
};
use crate::robot::{RobotView, Urdf};
use crate::wrappers::urdf::joint_flag;

verus! {

impl RobotView {
    /// The names for which there is an entity, in the order of the entities:
    /// the names of the links and then the names of the joints' children,
    /// each name once.
    pub open spec fn node_names(self) -> Seq<Seq<char>> {
        distinct(self.link_names() + self.child_names())
    }

    /// What is wrong with the link that counts for `name`, if anything.
    pub open spec fn link_error(self, name: Seq<char>) -> Option<TranslationErrorView> {
        match self.indexed_link(name) {
            Some(link) => match link_shape(link) {
                Ok(_) => None,
                Err(e) => Some(e),
            },
            None => None,
        }
    }

    /// The first thing that is wrong with a link among `names`.
    pub open spec fn first_error_among(self, names: Seq<Seq<char>>) -> Option<
        TranslationErrorView,
    >
        decreases names.len(),
    {
        if names.len() == 0 {
            None
        } else {
            match self.link_error(names[0]) {
                Some(e) => Some(e),
                None => self.first_error_among(names.skip(1)),
            }
        }
    }

    /// Why this robot cannot be turned into entities, if it cannot: what is
    /// wrong with the first of its link names whose link has a shape that
    /// cannot be taken over.
    pub open spec fn first_error(self) -> Option<TranslationErrorView> {
        self.first_error_among(distinct(self.link_names()))
    }

    /// The entity of `name` before the joints are looked at.
    pub open spec fn link_node(self, name: Seq<char>) -> EntityNodeView {
        match self.indexed_link(name) {
            Some(link) => EntityNodeView::empty().with_link(self.name, link),
            None => EntityNodeView::empty(),
        }
    }

    /// The entity of `name`: the attributes of the link that counts for the
    /// name, where there is one, and the joint that drives it, where there
    /// is one.
    pub open spec fn node(self, name: Seq<char>) -> EntityNodeView {
        match self.indexed_joint(name) {
            Some(joint) => self.link_node(name).with_joint(joint_flag(joint)),
            None => self.link_node(name),
        }
    }

    /// The entities of the robot, in the order of [`RobotView::node_names`].
    pub open spec fn nodes(self) -> Seq<EntityNodeView> {
        nodes_named(self, self.node_names())
    }
}

/// The entities that the robot `robot` has for `names`, one after the other.
pub open spec fn nodes_named(robot: RobotView, names: Seq<Seq<char>>) -> Seq<EntityNodeView> {
    Seq::new(names.len(), |e: int| robot.node(names[e]))
}

impl Urdf {
    /// Turns the robot into a graph of entities.
    ///
    /// There is one entity for each name that a link has or that a joint
    /// gives as its child, however often the name occurs. An entity carries
    /// the attributes of the last link of its name, if there is such a link,
    /// and the joint attribute of the last joint whose child has its name,
    /// if there is such a joint; see [`RobotView::node`]. A joint whose child
    /// is no link of the robot gets an entity all the same, which carries
    /// the joint and nothing of a link.
    ///
    /// The conversion fails, and gives no graph, exactly where the shape of
    /// a link that counts cannot be taken over; see
    /// [`RobotView::first_error`].
    pub fn into_entities(value: Urdf) -> (graph: Result<EntityGraph, TranslationError>)
        ensures
            match graph {
                Ok(g) => {
                    &&& value@.first_error() is None
                    &&& g.wf()
                    &&& g.names() == value@.node_names()
                    &&& g.nodes() == value@.nodes()
                },
                Err(e) => value@.first_error() == Some(e@),
            },
    {
        let robot = &value.robot;
        let ghost model = value@;
        let ghost link_keys = distinct(model.link_names());
        let ghost child_keys = distinct(model.child_names());
        let links = robot.index_links();
        let joints = robot.index_joints();
        let mut graph = EntityGraph::new();

        proof {
            lemma_distinct(model.link_names());
            lemma_distinct(model.child_names());
            assert(link_keys.skip(0) =~= link_keys);
            assert(link_keys.take(0) =~= Seq::<Seq<char>>::empty());
        }
        let mut k: usize = 0;
        while k < links.len()
            invariant
                model == value@,
                robot == &value.robot,
                link_keys == distinct(model.link_names()),
                link_keys.no_duplicates(),
                links.wf(),
                links@ == model.link_names(),
                k <= link_keys.len(),
                graph.wf(),
                graph.names() == link_keys.take(k as int),
                graph.nodes().len() == k,
                forall|e: int|
                    0 <= e < k ==> #[trigger] graph.nodes()[e] == model.link_node(link_keys[e]),
                model.first_error() == model.first_error_among(link_keys.skip(k as int)),
            decreases link_keys.len() - k,
        {
            let i = links.slot(k);
            let link = &robot.links[i];
            let ghost key = link_keys[k as int];
            proof {
                lemma_last_position(model.link_names(), key);
                assert(link@ == model.links[i as int]);
                assert(model.link_names()[i as int] == link@.name);
                assert(model.indexed_link(key) == Some(link@));
                if graph.names().contains(key) {
                    let e = choose|e: int| 0 <= e < k && link_keys.take(k as int)[e] == key;
                    assert(link_keys[e] == link_keys[k as int]);
                }
                assert(link_keys.skip(k as int)[0] == key);
                assert(link_keys.skip(k as int).skip(1) =~= link_keys.skip(k + 1));
            }
            let entity = graph.get_or_create(link.name.as_str());
            match graph.attach_link(entity, robot.name.as_str(), link) {
                Ok(_) => {},
                Err(e) => {
                    return Err(e);
                },
            }
            proof {
                assert(graph.names() =~= link_keys.take(k + 1));
            }
            k += 1;
        }

        proof {
            assert(link_keys.take(k as int) =~= link_keys);
            assert(link_keys.skip(k as int) =~= Seq::<Seq<char>>::empty());
            assert(child_keys.take(0) =~= Seq::<Seq<char>>::empty());
            assert(link_keys + child_keys.take(0) =~= link_keys);
            lemma_distinct_of_distinct(link_keys);
        }
        let mut k: usize = 0;
        while k < joints.len()
            invariant
                model == value@,
                robot == &value.robot,
                link_keys == distinct(model.link_names()),
                child_keys == distinct(model.child_names()),
                child_keys.no_duplicates(),
                joints.wf(),
                joints@ == model.child_names(),
                k <= child_keys.len(),
                graph.wf(),
                graph.names() == distinct(link_keys + child_keys.take(k as int)),
                graph.nodes().len() == graph.names().len(),
                forall|e: int|
                    0 <= e < graph.nodes().len() ==> #[trigger] graph.nodes()[e] == (if child_keys.take(
                        k as int,
                    ).contains(graph.names()[e]) {
                        model.node(graph.names()[e])
                    } else {
                        model.link_node(graph.names()[e])
                    }),
                model.first_error() is None,
            decreases child_keys.len() - k,
        {
            let j = joints.slot(k);
            let joint = &robot.joints[j];
            let ghost key = child_keys[k as int];
            let ghost done = child_keys.take(k as int);
            let ghost before = graph.names();
            proof {
                lemma_last_position(model.child_names(), key);
                assert(joint@ == model.joints[j as int]);
                assert(model.child_names()[j as int] == joint@.child);
                assert(model.indexed_joint(key) == Some(joint@));
                lemma_distinct(link_keys + done);
                lemma_distinct(model.link_names());
                if done.contains(key) {
                    let e = choose|e: int| 0 <= e < k && done[e] == key;
                    assert(child_keys[e] == child_keys[k as int]);
                }
                assert((link_keys + child_keys.take(k + 1)).drop_last() =~= link_keys + done);
                assert((link_keys + child_keys.take(k + 1)).last() == key);
                if !before.contains(key) {
                    // no link has this name
                    if model.link_names().contains(key) {
                        assert(link_keys.contains(key));
                        let e = choose|e: int| 0 <= e < link_keys.len() && link_keys[e] == key;
                        assert((link_keys + done)[e] == key);
                        assert((link_keys + done).contains(key));
                    }
                    lemma_last_position(model.link_names(), key);
                    assert(model.indexed_link(key) is None);
                }
            }
            let entity = graph.get_or_create(joint.child.as_str());
            graph.attach_joint(entity, JointFlag::from(joint));
            proof {
                let now = child_keys.take(k + 1);
                assert(graph.names() == distinct(link_keys + now));
                graph.lemma_wf();
                assert forall|e: int| 0 <= e < graph.nodes().len() implies #[trigger] graph.nodes()[e]
                    == (if now.contains(graph.names()[e]) {
                    model.node(graph.names()[e])
                } else {
                    model.link_node(graph.names()[e])
                }) by {
                    let name = graph.names()[e];
                    if e == entity {
                        assert(now[k as int] == key);
                        assert(now.contains(key));
                    } else {
                        assert(name != key);
                        assert(name == before[e]);
                        if now.contains(name) {
                            let x = choose|x: int| 0 <= x < now.len() && now[x] == name;
                            assert(x < k);
                            assert(done[x] == name);
                            assert(done.contains(name));
                        }
                        if done.contains(name) {
                            let x = choose|x: int| 0 <= x < done.len() && done[x] == name;
                            assert(now[x] == name);
                        }
                    }
                }
            }
            k += 1;
        }

        proof {
            assert(child_keys.take(k as int) =~= child_keys);
            lemma_distinct_of_parts(model.link_names(), model.child_names());
            lemma_distinct(model.child_names());
            assert forall|e: int| 0 <= e < graph.nodes().len() implies #[trigger] graph.nodes()[e]
                == model.node(model.node_names()[e]) by {
                let name = graph.names()[e];
                if !child_keys.contains(name) {
                    lemma_last_position(model.child_names(), name);
                    assert(model.indexed_joint(name) is None);
                }
            }
        }
        assert(graph.nodes() =~= model.nodes());
        Ok(graph)
    }
}

/// There is exactly one entity for each name that occurs among the links or
/// as the child of a joint: the names of the entities are those names, none
/// of them twice.
pub proof fn lemma_one_node_per_name(robot: RobotView)
    ensures
        robot.node_names().no_duplicates(),
        robot.node_names().to_set() == robot.link_names().to_set().union(
            robot.child_names().to_set(),
        ),
        robot.node_names().len() == robot.link_names().to_set().union(
            robot.child_names().to_set(),
        ).len(),
{
    let links = robot.link_names();
    let children = robot.child_names();
    let names = robot.node_names();
    lemma_distinct(links + children);
    assert forall|n: Seq<char>| names.to_set().contains(n) <==> links.to_set().union(
        children.to_set(),
    ).contains(n) by {
        if (links + children).contains(n) {
            let i = choose|i: int| 0 <= i < (links + children).len() && (links + children)[i] == n;
            if i < links.len() {
                assert(links[i] == n);
            } else {
                assert(children[i - links.len()] == n);
            }
        }
        if links.contains(n) {
            let i = choose|i: int| 0 <= i < links.len() && links[i] == n;
            assert((links + children)[i] == n);
        }
        if children.contains(n) {
            let i = choose|i: int| 0 <= i < children.len() && children[i] == n;
            assert((links + children)[links.len() + i] == n);
        }
    }
    assert(names.to_set() =~= links.to_set().union(children.to_set()));
    names.unique_seq_to_set();
}

/// A link without a visual gives an entity without shape and without colour,
/// which still has its collider, its solver groups and its placement.
pub proof fn lemma_link_without_visual(robot: RobotView, name: Seq<char>)
    requires
        robot.indexed_link(name) is Some,
        robot.indexed_link(name)->Some_0.visual.len() == 0,
    ensures
        robot.node(name).geometry is None,
        robot.node(name).material is None,
        robot.node(name).collider == Some(ColliderFlag::Convex),
        robot.node(name).solver_groups == Some(link_solver_groups()),
        robot.node(name).transform == Some(up_axis_correction()),
{
}

/// A joint whose child is no link of the robot still gives an entity of the
/// child's name. The entity carries the joint and can be moved; it has
/// neither mass nor shape.
pub proof fn lemma_orphaned_joint(robot: RobotView, j: int)
    requires
        0 <= j < robot.joints.len(),
        !robot.link_names().contains(robot.joints[j].child),
    ensures
        robot.node_names().contains(robot.joints[j].child),
        robot.node(robot.joints[j].child).joint is Some,
        robot.node(robot.joints[j].child).rigid_body == Some(RigidBodyFlag::Dynamic),
        robot.node(robot.joints[j].child).mass is None,
        robot.node(robot.joints[j].child).geometry is None,
        robot.node(robot.joints[j].child).name is None,
{
    let child = robot.joints[j].child;
    let all = robot.link_names() + robot.child_names();
    assert(robot.child_names()[j] == child);
    assert(all[robot.link_names().len() + j] == child);
    lemma_distinct(all);
    lemma_last_position(robot.link_names(), child);
    lemma_last_position(robot.child_names(), child);
}

/// An entity can be moved exactly if a joint drives it: with a joint it is
/// dynamic, with a link and no joint it is fixed.
pub proof fn lemma_rigid_body_follows_joint(robot: RobotView, name: Seq<char>)
    ensures
        robot.node(name).joint is Some <==> robot.child_names().contains(name),
        robot.node(name).joint is Some ==> robot.node(name).rigid_body == Some(
            RigidBodyFlag::Dynamic,
        ),
        robot.node(name).joint is None && robot.link_names().contains(name) ==> robot.node(
            name,
        ).rigid_body == Some(RigidBodyFlag::Fixed),
{
    lemma_last_position(robot.link_names(), name);
    lemma_last_position(robot.child_names(), name);
}

/// A robot in good order gives exactly one entity for each of its links, in
/// the order of the links, and no other entity.
pub proof fn lemma_valid_robot_has_an_entity_per_link(robot: RobotView)
    requires
        robot.valid(),
    ensures
        robot.node_names() == robot.link_names(),
        forall|i: int|
            0 <= i < robot.links.len() ==> robot.indexed_link(#[trigger] robot.link_names()[i])
                == Some(robot.links[i]),
{
    assert forall|j: int| 0 <= j < robot.child_names().len() implies robot.link_names().contains(
        #[trigger] robot.child_names()[j],
    ) by {
        assert(robot.child_names()[j] == robot.joints[j].child);
    }
    lemma_distinct_absorbs(robot.link_names(), robot.child_names());
    assert forall|i: int| 0 <= i < robot.links.len() implies robot.indexed_link(
        #[trigger] robot.link_names()[i],
    ) == Some(robot.links[i]) by {
        lemma_last_position_is(robot.link_names(), robot.link_names()[i], i);
    }
}

} // verus!
