//! There and back: what is left of a robot that has been turned into
//! entities and then back into a description.

use vstd::prelude::*;
use crate::flags::{AXIS_ANG_X, AXIS_ANG_Y, AXIS_ANG_Z, LOCKED_FIXED_AXES};
use crate::forward::nodes_named;
use crate::graph::{link_query_of, query_of};
use crate::names::{distinct, lemma_distinct, lemma_last_position};
use crate::reverse::{
    joint_record, joint_suffix, joints_of, structure_names, tree_of, EFFORT_LIMIT_BITS,
    VELOCITY_LIMIT_BITS,
};
use crate::robot::RobotView;
use crate::scalar::{Scalar, Vec3};
use crate::wrappers::urdf::{joint_flag, JointLimit, JointType, JointView};

verus! {

/// What comes back of the joint `joint` that drives the link `name`.
///
/// The parent, the origin and the lower and upper limits are those of the
/// joint. The name is made from the link's name, the kind is continuous,
/// the axis is `(1, 1, 1)`, the effort and velocity limits are the two large
/// numbers, and there are no dynamics, whatever the joint had of these.
pub open spec fn returned_joint(name: Seq<char>, joint: JointView) -> JointView {
    JointView {
        name: name + joint_suffix(),
        joint_type: JointType::Continuous,
        origin: joint.origin,
        parent: joint.parent,
        child: name,
        axis: Vec3 { x: Scalar::spec_one(), y: Scalar::spec_one(), z: Scalar::spec_one() },
        limit: JointLimit {
            lower: joint.limit.lower,
            upper: joint.limit.upper,
            effort: Scalar { bits: EFFORT_LIMIT_BITS },
            velocity: Scalar { bits: VELOCITY_LIMIT_BITS },
        },
        dynamics: None,
    }
}

/// What comes back of the joints of `robot` that drive links among `names`:
/// a joint for each name that has both a link and a joint, in the order of
/// the names.
pub open spec fn returned_joints(robot: RobotView, names: Seq<Seq<char>>) -> Seq<JointView>
    decreases names.len(),
{
    if names.len() == 0 {
        Seq::empty()
    } else {
        let before = returned_joints(robot, names.drop_last());
        let name = names.last();
        if robot.indexed_link(name) is Some && robot.indexed_joint(name) is Some {
            before.push(returned_joint(name, robot.indexed_joint(name)->Some_0))
        } else {
            before
        }
    }
}

/// A list that repeats one name has that name as its only distinct name.
proof fn lemma_distinct_of_one_name(names: Seq<Seq<char>>, name: Seq<char>)
    requires
        names.len() > 0,
        forall|i: int| 0 <= i < names.len() ==> names[i] == name,
    ensures
        distinct(names) == seq![name],
    decreases names.len(),
{
    let init = names.drop_last();
    assert(names.last() == name);
    if init.len() == 0 {
        assert(distinct(init) =~= Seq::<Seq<char>>::empty());
        assert(distinct(names) =~= seq![name]);
    } else {
        assert forall|i: int| 0 <= i < init.len() implies init[i] == name by {
            assert(init[i] == names[i]);
        }
        lemma_distinct_of_one_name(init, name);
        assert(seq![name][0] == name);
    }
}

/// The entities of a robot are read as entities of that robot, the joints
/// that drive its links come back as [`returned_joints`] says, and nothing
/// is read of a robot without links.
pub proof fn lemma_round_trip_among(robot: RobotView, names: Seq<Seq<char>>)
    ensures
        joints_of(query_of(nodes_named(robot, names)), robot.name) == returned_joints(
            robot,
            names,
        ),
        forall|i: int|
            0 <= i < query_of(nodes_named(robot, names)).len() ==> (#[trigger] query_of(
                nodes_named(robot, names),
            )[i]).structure == robot.name,
        robot.links.len() == 0 ==> query_of(nodes_named(robot, names)).len() == 0,
        forall|e: int|
            0 <= e < names.len() && robot.indexed_link(#[trigger] names[e]) is Some ==> query_of(
                nodes_named(robot, names),
            ).len() > 0,
    decreases names.len(),
{
    let nodes = nodes_named(robot, names);
    if names.len() > 0 {
        let init = names.drop_last();
        let name = names.last();
        lemma_round_trip_among(robot, init);
        assert(nodes.drop_last() =~= nodes_named(robot, init));
        assert(nodes.last() == robot.node(name));
        lemma_last_position(robot.link_names(), name);
        lemma_last_position(robot.child_names(), name);
        let before = query_of(nodes_named(robot, init));
        match link_query_of(robot.node(name)) {
            Some(item) => {
                let link = robot.indexed_link(name)->Some_0;
                assert(link.name == name);
                assert(query_of(nodes) == before.push(item));
                assert(query_of(nodes).drop_last() =~= before);
                assert(query_of(nodes).last() == item);
                if robot.indexed_joint(name) is Some {
                    let joint = robot.indexed_joint(name)->Some_0;
                    let count = joints_of(before, robot.name).len();
                    assert(LOCKED_FIXED_AXES & AXIS_ANG_X == AXIS_ANG_X) by (bit_vector);
                    assert(LOCKED_FIXED_AXES & AXIS_ANG_Y == AXIS_ANG_Y) by (bit_vector);
                    assert(LOCKED_FIXED_AXES & AXIS_ANG_Z == AXIS_ANG_Z) by (bit_vector);
                    assert(joint_record(item, joint_flag(joint), count) == returned_joint(
                        name,
                        joint,
                    ));
                }
            },
            None => {
                assert(robot.indexed_link(name) is None);
            },
        }
        assert forall|e: int|
            0 <= e < names.len() && robot.indexed_link(#[trigger] names[e]) is Some implies query_of(
            nodes,
        ).len() > 0 by {
            if e < init.len() {
                assert(init[e] == names[e]);
            }
        }
        if robot.links.len() == 0 {
            assert(robot.link_names().len() == 0);
        }
    }
}

/// What is left of a robot after the way there and back.
///
/// If the robot has links, one description comes back, under the robot's
/// name; if it has none, nothing comes back. The description holds the
/// joints that [`returned_joints`] gives for the names of the robot's
/// entities: of each joint that drives a link of the robot, the parent, the
/// child, the origin and the lower and upper limits are kept.
pub proof fn lemma_round_trip(robot: RobotView)
    ensures
        distinct(structure_names(query_of(robot.nodes()))) == (if robot.links.len() > 0 {
            seq![robot.name]
        } else {
            Seq::<Seq<char>>::empty()
        }),
        tree_of(query_of(robot.nodes()), robot.name).joints == returned_joints(
            robot,
            robot.node_names(),
        ),
{
    let names = robot.node_names();
    let items = query_of(robot.nodes());
    let tags = structure_names(items);
    lemma_round_trip_among(robot, names);
    if robot.links.len() > 0 {
        let first = robot.link_names()[0];
        lemma_last_position(robot.link_names(), first);
        assert(robot.link_names().contains(first));
        assert(robot.indexed_link(first) is Some);
        lemma_distinct(robot.link_names() + robot.child_names());
        assert((robot.link_names() + robot.child_names())[0] == first);
        assert(names.contains(first));
        let e = choose|e: int| 0 <= e < names.len() && names[e] == first;
        assert(robot.indexed_link(names[e]) is Some);
        assert(tags.len() > 0);
        assert forall|i: int| 0 <= i < tags.len() implies tags[i] == robot.name by {
            assert(tags[i] == items[i].structure);
        }
        lemma_distinct_of_one_name(tags, robot.name);
    } else {
        assert(tags =~= Seq::<Seq<char>>::empty());
    }
}

} // verus!
