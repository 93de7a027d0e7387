//! From entities back to robot descriptions.
//!
//! The way back is not the way there run backwards. A joint comes back as a
//! continuous joint whatever it was, its effort and velocity limits come
//! back as two very large numbers, its dynamics do not come back, and links
//! are not written out at all. What does come back is stated by
//! [`joint_record`] and [`tree_of`].

use vstd::prelude::*;
use crate::flags::{JointFlagView, AXIS_ANG_X, AXIS_ANG_Y, AXIS_ANG_Z};
use crate::names::{distinct, lemma_distinct, NameTable};
use crate::robot::{Robot, RobotView, Urdf};
use crate::scalar::{Scalar, Vec3};
use crate::wrappers::material_and_mesh::MaterialView;
use crate::wrappers::urdf::{
    JointLimit, JointType, JointView, JointWrapper, LinkQuery, LinkQueryView, LinkView,
    UrdfTransform,
};

verus! {

/// Bit pattern of `99999999999.0`, the effort limit of every joint that is
/// written out.
pub const EFFORT_LIMIT_BITS: u64 = 0x4237_4876_e7ff_0000;

/// Bit pattern of `999999999999.0`, the velocity limit of every joint that is
/// written out.
pub const VELOCITY_LIMIT_BITS: u64 = 0x426d_1a94_a1ff_e000;

/// What follows the name of a link in the name of its joint.
pub open spec fn joint_suffix() -> Seq<char> {
    "_joint"@
}

/// The decimal digit for `d`.
pub open spec fn digit(d: nat) -> char {
    if d == 0 {
        '0'
    } else if d == 1 {
        '1'
    } else if d == 2 {
        '2'
    } else if d == 3 {
        '3'
    } else if d == 4 {
        '4'
    } else if d == 5 {
        '5'
    } else if d == 6 {
        '6'
    } else if d == 7 {
        '7'
    } else if d == 8 {
        '8'
    } else {
        '9'
    }
}

/// The number `n` written in decimal digits, without leading zeros.
pub open spec fn decimal(n: nat) -> Seq<char>
    decreases n,
{
    if n < 10 {
        seq![digit(n)]
    } else {
        decimal(n / 10).push(digit(n % 10))
    }
}

/// The decimal digit for `d`, as a text of one character.
fn digit_text(d: usize) -> (text: &'static str)
    requires
        d < 10,
    ensures
        text@ == seq![digit(d as nat)],
{
    proof {
        reveal_strlit("0");
        reveal_strlit("1");
        reveal_strlit("2");
        reveal_strlit("3");
        reveal_strlit("4");
        reveal_strlit("5");
        reveal_strlit("6");
        reveal_strlit("7");
        reveal_strlit("8");
        reveal_strlit("9");
    }
    let text = if d == 0 {
        "0"
    } else if d == 1 {
        "1"
    } else if d == 2 {
        "2"
    } else if d == 3 {
        "3"
    } else if d == 4 {
        "4"
    } else if d == 5 {
        "5"
    } else if d == 6 {
        "6"
    } else if d == 7 {
        "7"
    } else if d == 8 {
        "8"
    } else {
        "9"
    };
    assert(text@ =~= seq![digit(d as nat)]);
    text
}

/// The number `n` written in decimal digits.
pub fn decimal_string(n: usize) -> (text: String)
    ensures
        text@ == decimal(n as nat),
    decreases n,
{
    if n < 10 {
        digit_text(n).to_owned()
    } else {
        let mut text = decimal_string(n / 10);
        text.append(digit_text(n % 10));
        assert(text@ =~= decimal((n / 10) as nat).push(digit((n % 10) as nat)));
        text
    }
}

/// The name under which the link of `item` is written out: the entity's
/// name, or, where it has none, the number `count` in decimal digits.
pub open spec fn link_name_of(item: LinkQueryView, count: nat) -> Seq<char> {
    match item.name {
        Some(name) => name,
        None => decimal(count),
    }
}

/// The joint that is written out for the entity `item`, which carries the
/// joint attribute `joint`, when `count` joints of its robot have been
/// written out before it.
///
/// - Its child is the link of the entity, see [`link_name_of`]; its own name
///   is that name followed by `_joint`.
/// - Its parent is the parent that the attribute names, or the empty name.
/// - It is a continuous joint.
/// - Its origin is the attribute's frame on the parent's side.
/// - Its axis has a `1.0` for each of X, Y and Z about which the attribute
///   locks turning, and a `0.0` for the others.
/// - Its lower and upper limits are the attribute's; effort and velocity are
///   [`EFFORT_LIMIT_BITS`] and [`VELOCITY_LIMIT_BITS`].
/// - It has no dynamics.
pub open spec fn joint_record(item: LinkQueryView, joint: JointFlagView, count: nat) -> JointView {
    JointView {
        name: link_name_of(item, count) + joint_suffix(),
        joint_type: JointType::Continuous,
        origin: UrdfTransform {
            xyz: joint.local_frame1.translation,
            rpy: joint.local_frame1.rotation,
        },
        parent: match joint.parent_name {
            Some(parent) => parent,
            None => Seq::empty(),
        },
        child: link_name_of(item, count),
        axis: Vec3 {
            x: Scalar::spec_indicator(joint.locked_axes.spec_contains(AXIS_ANG_X)),
            y: Scalar::spec_indicator(joint.locked_axes.spec_contains(AXIS_ANG_Y)),
            z: Scalar::spec_indicator(joint.locked_axes.spec_contains(AXIS_ANG_Z)),
        },
        limit: JointLimit {
            lower: joint.limit.lower,
            upper: joint.limit.upper,
            effort: Scalar { bits: EFFORT_LIMIT_BITS },
            velocity: Scalar { bits: VELOCITY_LIMIT_BITS },
        },
        dynamics: None,
    }
}

/// For each entity of `items` in its order, the robot that it belongs to.
pub open spec fn structure_names(items: Seq<LinkQueryView>) -> Seq<Seq<char>> {
    Seq::new(items.len(), |i: int| items[i].structure)
}

/// The joints of the robot `robot` that `items` give: one for each entity of
/// that robot that carries a joint, in the order of the entities.
pub open spec fn joints_of(items: Seq<LinkQueryView>, robot: Seq<char>) -> Seq<JointView>
    decreases items.len(),
{
    if items.len() == 0 {
        Seq::empty()
    } else {
        let before = joints_of(items.drop_last(), robot);
        let item = items.last();
        if item.structure == robot && item.joint is Some {
            before.push(joint_record(item, item.joint->Some_0, before.len()))
        } else {
            before
        }
    }
}

/// The description of the robot `robot` that `items` give: its joints, and
/// neither links nor materials.
pub open spec fn tree_of(items: Seq<LinkQueryView>, robot: Seq<char>) -> RobotView {
    RobotView {
        name: robot,
        links: Seq::<LinkView>::empty(),
        joints: joints_of(items, robot),
        materials: Seq::<MaterialView>::empty(),
    }
}

/// Entities of other robots give a robot no joints.
pub proof fn lemma_no_joints_of_stranger(items: Seq<LinkQueryView>, robot: Seq<char>)
    requires
        !structure_names(items).contains(robot),
    ensures
        joints_of(items, robot) == Seq::<JointView>::empty(),
    decreases items.len(),
{
    if items.len() > 0 {
        let init = items.drop_last();
        assert(structure_names(items)[items.len() - 1] == items.last().structure);
        if structure_names(init).contains(robot) {
            let i = choose|i: int| 0 <= i < init.len() && structure_names(init)[i] == robot;
            assert(structure_names(items)[i] == robot);
        }
        lemma_no_joints_of_stranger(init, robot);
    }
}

/// Whatever the joints of the entities were, every joint that is written
/// out is continuous, has no dynamics, has the two large numbers as its
/// effort and velocity limits, and is named after its child.
pub proof fn lemma_written_joints(items: Seq<LinkQueryView>, robot: Seq<char>, k: int)
    requires
        0 <= k < joints_of(items, robot).len(),
    ensures
        joints_of(items, robot)[k].joint_type == JointType::Continuous,
        joints_of(items, robot)[k].dynamics is None,
        joints_of(items, robot)[k].limit.effort == (Scalar { bits: EFFORT_LIMIT_BITS }),
        joints_of(items, robot)[k].limit.velocity == (Scalar { bits: VELOCITY_LIMIT_BITS }),
        joints_of(items, robot)[k].name == joints_of(items, robot)[k].child + joint_suffix(),
    decreases items.len(),
{
    if items.len() > 0 {
        let before = joints_of(items.drop_last(), robot);
        if k < before.len() {
            lemma_written_joints(items.drop_last(), robot, k);
        }
    }
}

/// The robots that descriptions are written for are those that the entities
/// name, each once; and a robot gets as many joints as it has entities with
/// a joint, never more than it has entities.
pub proof fn lemma_grouping(items: Seq<LinkQueryView>, robot: Seq<char>)
    ensures
        distinct(structure_names(items)).no_duplicates(),
        distinct(structure_names(items)).contains(robot) <==> exists|i: int|
            0 <= i < items.len() && (#[trigger] items[i]).structure == robot,
        joints_of(items, robot).len() <= items.len(),
        joints_of(items, robot).len() > 0 <==> exists|i: int|
            0 <= i < items.len() && (#[trigger] items[i]).structure == robot
                && items[i].joint is Some,
    decreases items.len(),
{
    let tags = structure_names(items);
    lemma_distinct(tags);
    if tags.contains(robot) {
        let i = choose|i: int| 0 <= i < tags.len() && tags[i] == robot;
        assert(items[i].structure == robot);
    }
    if exists|i: int| 0 <= i < items.len() && (#[trigger] items[i]).structure == robot {
        let i = choose|i: int| 0 <= i < items.len() && (#[trigger] items[i]).structure == robot;
        assert(tags[i] == robot);
    }
    if items.len() > 0 {
        let init = items.drop_last();
        lemma_grouping(init, robot);
        let last = items.last();
        if exists|i: int|
            0 <= i < init.len() && (#[trigger] init[i]).structure == robot && init[i].joint is Some {
            let i = choose|i: int|
                0 <= i < init.len() && (#[trigger] init[i]).structure == robot
                    && init[i].joint is Some;
            assert(items[i] == init[i]);
        }
        if exists|i: int|
            0 <= i < items.len() && (#[trigger] items[i]).structure == robot
                && items[i].joint is Some {
            let i = choose|i: int|
                0 <= i < items.len() && (#[trigger] items[i]).structure == robot
                    && items[i].joint is Some;
            if i < init.len() {
                assert(init[i] == items[i]);
            }
        }
        if last.structure == robot && last.joint is Some {
            assert(items[items.len() - 1] == last);
        }
    }
}

impl JointWrapper {
    /// The joint that is written out for the entity `item`, when `count`
    /// joints of its robot have been written out before it; nothing for an
    /// entity without a joint.
    pub fn from_query(item: &LinkQuery, count: usize) -> (record: Option<JointWrapper>)
        ensures
            match record {
                Some(r) => item@.joint is Some && r@ == joint_record(
                    item@,
                    item@.joint->Some_0,
                    count as nat,
                ),
                None => item@.joint is None,
            },
    {
        match &item.joint {
            None => None,
            Some(joint) => {
                let link_name = match &item.name {
                    Some(name) => name.clone(),
                    None => decimal_string(count),
                };
                let joint_name = link_name.clone().concat("_joint");
                let joint_parent = match &joint.parent_name {
                    Some(parent) => parent.clone(),
                    None => String::new(),
                };
                Some(
                    JointWrapper {
                        name: joint_name,
                        joint_type: JointType::Continuous,
                        origin: UrdfTransform {
                            xyz: joint.local_frame1.translation,
                            rpy: joint.local_frame1.rotation,
                        },
                        parent: joint_parent,
                        child: link_name,
                        axis: Vec3 {
                            x: Scalar::indicator(joint.locked_axes.contains(AXIS_ANG_X)),
                            y: Scalar::indicator(joint.locked_axes.contains(AXIS_ANG_Y)),
                            z: Scalar::indicator(joint.locked_axes.contains(AXIS_ANG_Z)),
                        },
                        limit: JointLimit {
                            lower: joint.limit.lower,
                            upper: joint.limit.upper,
                            effort: Scalar::from_bits(EFFORT_LIMIT_BITS),
                            velocity: Scalar::from_bits(VELOCITY_LIMIT_BITS),
                        },
                        dynamics: None,
                    },
                )
            },
        }
    }
}

impl Urdf {
    /// Turns entities back into robot descriptions, one for each robot that
    /// an entity says it belongs to.
    ///
    /// The descriptions come in the order in which their robots first occur
    /// among the entities, and no two of them have one name. Each holds what
    /// [`tree_of`] says.
    pub fn into_hashmap(value: Vec<LinkQuery>) -> (trees: Vec<Urdf>)
        ensures
            trees.deep_view().len() == distinct(structure_names(value.deep_view())).len(),
            forall|k: int|
                0 <= k < trees.deep_view().len() ==> #[trigger] trees.deep_view()[k] == tree_of(
                    value.deep_view(),
                    distinct(structure_names(value.deep_view()))[k],
                ),
    {
        let ghost items = value.deep_view();
        let ghost tags = structure_names(items);
        let mut robots = NameTable::new();
        let mut trees: Vec<Urdf> = Vec::new();
        let mut n: usize = 0;
        proof {
            assert(tags.take(0) =~= Seq::<Seq<char>>::empty());
        }
        while n < value.len()
            invariant
                n <= value.len(),
                items == value.deep_view(),
                tags == structure_names(items),
                robots.wf(),
                robots@ == distinct(tags.take(n as int)),
                trees.len() == robots@.len(),
                forall|k: int|
                    0 <= k < trees.len() ==> #[trigger] trees.deep_view()[k] == tree_of(
                        items.take(n as int),
                        robots@[k],
                    ),
            decreases value.len() - n,
        {
            let item = &value[n];
            let ghost seen = items.take(n as int);
            let ghost now = items.take(n + 1);
            let ghost tag = item@.structure;
            let ghost old_robots = robots@;
            let ghost old_trees = trees.deep_view();
            proof {
                assert(item@ == items[n as int]);
                assert(tags[n as int] == tag);
                assert(tags.take(n + 1).drop_last() =~= tags.take(n as int));
                assert(now.drop_last() =~= seen);
                assert(now.last() == item@);
                assert(structure_names(seen) =~= tags.take(n as int));
                lemma_distinct(tags.take(n as int));
                if !old_robots.contains(tag) {
                    lemma_no_joints_of_stranger(seen, tag);
                }
            }
            let e = robots.intern(item.structure.name.as_str());
            if e >= trees.len() {
                trees.push(
                    Urdf {
                        robot: Robot {
                            name: item.structure.name.clone(),
                            links: Vec::new(),
                            joints: Vec::new(),
                            materials: Vec::new(),
                        },
                    },
                );
                proof {
                    let fresh = trees.deep_view()[e as int];
                    assert(fresh.links =~= Seq::<LinkView>::empty());
                    assert(fresh.joints =~= Seq::<JointView>::empty());
                    assert(fresh.materials =~= Seq::<MaterialView>::empty());
                    assert(fresh == tree_of(seen, tag));
                    assert forall|k: int| 0 <= k < trees.len() implies #[trigger] trees.deep_view()[k]
                        == tree_of(seen, robots@[k]) by {
                        if k < e {
                            assert(trees.deep_view()[k] == old_trees[k]);
                        }
                    }
                }
            }
            let ghost mid_trees = trees.deep_view();
            let count = trees[e].robot.joints.len();
            match JointWrapper::from_query(item, count) {
                Some(record) => {
                    trees[e].robot.joints.push(record);
                    proof {
                        let grown = trees.deep_view()[e as int];
                        assert(grown.joints =~= mid_trees[e as int].joints.push(record@));
                        assert(grown.links =~= mid_trees[e as int].links);
                        assert(grown.materials =~= mid_trees[e as int].materials);
                    }
                },
                None => {},
            }
            proof {
                assert forall|k: int| 0 <= k < trees.len() implies #[trigger] trees.deep_view()[k]
                    == tree_of(now, robots@[k]) by {
                    if k != e {
                        assert(robots@[k] != tag);
                        assert(trees.deep_view()[k] == mid_trees[k]);
                    }
                }
            }
            n += 1;
        }
        proof {
            assert(tags.take(n as int) =~= tags);
            assert(items.take(n as int) =~= items);
        }
        trees
    }
}

} // verus!
