//! The graph of entities.
//!
//! An entity stands for one link. It carries a set of attributes, each of
//! which may be there or not. The graph owns the entities and knows each of
//! them by the name of its link: asking for the entity of a name creates it
//! the first time and finds it again ever after.

use vstd::prelude::*;
use crate::error::{TranslationError, TranslationErrorView};
use crate::flags::{
    CcdFlag, ColliderFlag, FileCheckPicker, FileCheckPickerView, GeometryShiftMarked,
    GroupWrapper, JointFlag, JointFlagView, LinkFlag, MassFlag, MaterialFlag, Matrix3,
    MatrixVisComponentTest, RigidBodyFlag, SolverGroupsFlag, SpawnTransform, StructureFlag,
    Visibility, GROUP_1, GROUP_2,
};
use crate::names::NameTable;
use crate::scalar::Scalar;
use crate::wrappers::material_and_mesh::{
    flag_geometry, material_flag, to_flag_geometry, VisualWrapper,
};
use crate::wrappers::urdf::{link_flag, LinkQuery, LinkQueryView, LinkView, LinkWrapper};

verus! {

/// An entity: one field for each attribute that it may carry.
#[derive(Clone, Debug, PartialEq, Eq)]
pub struct EntityNode {
    pub name: Option<String>,
    pub link: Option<LinkFlag>,
    pub structure: Option<StructureFlag>,
    pub mass: Option<MassFlag>,
    pub geometry: Option<FileCheckPicker>,
    pub material: Option<MaterialFlag>,
    pub visibility: Option<Visibility>,
    pub transform: Option<SpawnTransform>,
    pub collider: Option<ColliderFlag>,
    pub solver_groups: Option<SolverGroupsFlag>,
    pub geometry_shift: Option<GeometryShiftMarked>,
    pub rigid_body: Option<RigidBodyFlag>,
    pub ccd: Option<CcdFlag>,
    pub matrix_vis: Option<MatrixVisComponentTest>,
    pub joint: Option<JointFlag>,
}

/// An [`EntityNode`] with its texts as sequences of characters.
pub struct EntityNodeView {
    pub name: Option<Seq<char>>,
    pub link: Option<LinkFlag>,
    pub structure: Option<Seq<char>>,
    pub mass: Option<MassFlag>,
    pub geometry: Option<FileCheckPickerView>,
    pub material: Option<MaterialFlag>,
    pub visibility: Option<Visibility>,
    pub transform: Option<SpawnTransform>,
    pub collider: Option<ColliderFlag>,
    pub solver_groups: Option<SolverGroupsFlag>,
    pub geometry_shift: Option<GeometryShiftMarked>,
    pub rigid_body: Option<RigidBodyFlag>,
    pub ccd: Option<CcdFlag>,
    pub matrix_vis: Option<MatrixVisComponentTest>,
    pub joint: Option<JointFlagView>,
}

impl View for EntityNode {
    type V = EntityNodeView;

    open spec fn view(&self) -> EntityNodeView {
        EntityNodeView {
            name: self.name.deep_view(),
            link: self.link,
            structure: self.structure.deep_view(),
            mass: self.mass,
            geometry: self.geometry.deep_view(),
            material: self.material,
            visibility: self.visibility,
            transform: self.transform,
            collider: self.collider,
            solver_groups: self.solver_groups,
            geometry_shift: self.geometry_shift,
            rigid_body: self.rigid_body,
            ccd: self.ccd,
            matrix_vis: self.matrix_vis,
            joint: self.joint.deep_view(),
        }
    }
}

impl DeepView for EntityNode {
    type V = EntityNodeView;

    open spec fn deep_view(&self) -> EntityNodeView {
        self@
    }
}

/// The mass that every link is given: `1.0`, whatever its description says.
pub open spec fn unit_mass() -> MassFlag {
    MassFlag { mass: Scalar::spec_one() }
}

/// By how many quarter turns about X every link is turned: one, backwards.
pub const UP_AXIS_QUARTER_TURNS: i8 = -1;

/// The placement of every link: where the host asked for it, turned about X
/// by [`UP_AXIS_QUARTER_TURNS`].
pub open spec fn up_axis_correction() -> SpawnTransform {
    SpawnTransform { x_quarter_turns: UP_AXIS_QUARTER_TURNS }
}

/// The solver groups of every link: it is in the first and meets the
/// second.
pub open spec fn link_solver_groups() -> SolverGroupsFlag {
    SolverGroupsFlag {
        memberships: GroupWrapper { bits: GROUP_1 },
        filters: GroupWrapper { bits: GROUP_2 },
    }
}

/// The shape attribute of `link`: that of its first visual, none where it
/// has no visual.
pub open spec fn link_shape(link: LinkView) -> Result<
    Option<FileCheckPickerView>,
    TranslationErrorView,
> {
    if link.visual.len() > 0 {
        match flag_geometry(link.visual[0].geometry) {
            Ok(picked) => Ok(Some(picked)),
            Err(e) => Err(e),
        }
    } else {
        Ok(None)
    }
}

impl EntityNodeView {
    /// The entity without any attribute.
    pub open spec fn empty() -> EntityNodeView {
        EntityNodeView {
            name: None,
            link: None,
            structure: None,
            mass: None,
            geometry: None,
            material: None,
            visibility: None,
            transform: None,
            collider: None,
            solver_groups: None,
            geometry_shift: None,
            rigid_body: None,
            ccd: None,
            matrix_vis: None,
            joint: None,
        }
    }

    /// This entity after the attributes of `link`, a link of the robot
    /// `robot`, have been put on it.
    ///
    /// The name, the link attribute, the robot's name and the mass are set.
    /// Shape and colour are set where the link has a visual, to those of the
    /// first one, and left as they were where it has none. Visibility,
    /// placement, collider, solver groups, the shift mark, continuous
    /// collision and the matrix are set to fixed values. A joint attribute
    /// stays; the entity is immovable unless it carries one.
    pub open spec fn with_link(self, robot: Seq<char>, link: LinkView) -> EntityNodeView {
        EntityNodeView {
            name: Some(link.name),
            link: Some(link_flag(link)),
            structure: Some(robot),
            mass: Some(unit_mass()),
            geometry: if link.visual.len() > 0 {
                match link_shape(link) {
                    Ok(shape) => shape,
                    Err(_) => None,
                }
            } else {
                self.geometry
            },
            material: if link.visual.len() > 0 {
                Some(material_flag(link.visual[0]))
            } else {
                self.material
            },
            visibility: Some(Visibility::Inherited),
            transform: Some(up_axis_correction()),
            collider: Some(ColliderFlag::Convex),
            solver_groups: Some(link_solver_groups()),
            geometry_shift: Some(GeometryShiftMarked {  }),
            rigid_body: if self.joint is Some {
                Some(RigidBodyFlag::Dynamic)
            } else {
                Some(RigidBodyFlag::Fixed)
            },
            ccd: Some(CcdFlag { enabled: false }),
            matrix_vis: Some(MatrixVisComponentTest { matrix: Matrix3::spec_zero() }),
            joint: self.joint,
        }
    }

    /// This entity after the joint attribute `joint` has been put on it: it
    /// carries the joint and can be moved. Everything else stays.
    pub open spec fn with_joint(self, joint: JointFlagView) -> EntityNodeView {
        EntityNodeView { rigid_body: Some(RigidBodyFlag::Dynamic), joint: Some(joint), ..self }
    }
}

impl EntityNode {
    /// The entity without any attribute.
    pub fn empty() -> (node: EntityNode)
        ensures
            node@ == EntityNodeView::empty(),
    {
        EntityNode {
            name: None,
            link: None,
            structure: None,
            mass: None,
            geometry: None,
            material: None,
            visibility: None,
            transform: None,
            collider: None,
            solver_groups: None,
            geometry_shift: None,
            rigid_body: None,
            ccd: None,
            matrix_vis: None,
            joint: None,
        }
    }

    /// Puts the attributes of `link`, a link of the robot `robot`, on this
    /// entity. Where the shape of the link cannot be taken over, the entity
    /// stays as it was.
    pub fn attach_link(&mut self, robot: &str, link: &LinkWrapper) -> (done: Result<
        (),
        TranslationError,
    >)
        ensures
            match done {
                Ok(_) => link_shape(link@) is Ok && final(self)@ == old(self)@.with_link(
                    robot@,
                    link@,
                ),
                Err(e) => link_shape(link@) == Err::<
                    Option<FileCheckPickerView>,
                    TranslationErrorView,
                >(e@) && final(self)@ == old(self)@,
            },
    {
        if link.visual.len() > 0 {
            let visual: &VisualWrapper = &link.visual[0];
            assert(visual@ == link@.visual[0]);
            match to_flag_geometry(visual) {
                Ok(picked) => {
                    self.geometry = Some(picked);
                    self.material = Some(MaterialFlag::from(visual));
                },
                Err(e) => {
                    return Err(e);
                },
            }
        }
        self.name = Some(link.name.clone());
        self.link = Some(LinkFlag::from(link));
        self.structure = Some(StructureFlag { name: robot.to_owned() });
        self.mass = Some(MassFlag { mass: Scalar::one() });
        self.visibility = Some(Visibility::Inherited);
        self.transform = Some(SpawnTransform { x_quarter_turns: UP_AXIS_QUARTER_TURNS });
        self.collider = Some(ColliderFlag::Convex);
        self.solver_groups = Some(
            SolverGroupsFlag {
                memberships: GroupWrapper { bits: GROUP_1 },
                filters: GroupWrapper { bits: GROUP_2 },
            },
        );
        self.geometry_shift = Some(GeometryShiftMarked {  });
        self.rigid_body = if self.joint.is_some() {
            Some(RigidBodyFlag::Dynamic)
        } else {
            Some(RigidBodyFlag::Fixed)
        };
        self.ccd = Some(CcdFlag { enabled: false });
        self.matrix_vis = Some(MatrixVisComponentTest { matrix: Matrix3::zero() });
        Ok(())
    }

    /// Puts the joint attribute `joint` on this entity and makes it movable.
    pub fn attach_joint(&mut self, joint: JointFlag)
        ensures
            final(self)@ == old(self)@.with_joint(joint@),
    {
        self.joint = Some(joint);
        self.rigid_body = Some(RigidBodyFlag::Dynamic);
    }

    /// What a query for links reads of this entity, if it is one of a
    /// robot: an entity that does not say which robot it belongs to is
    /// passed over.
    pub fn link_query(&self) -> (item: Option<LinkQuery>)
        ensures
            item.deep_view() == link_query_of(self@),
    {
        match &self.structure {
            None => None,
            Some(structure) => {
                let name = match &self.name {
                    Some(name) => Some(name.clone()),
                    None => None,
                };
                let visual = match &self.geometry {
                    Some(picked) => Some(picked.clone()),
                    None => None,
                };
                let joint = match &self.joint {
                    Some(joint) => Some(joint.clone()),
                    None => None,
                };
                Some(
                    LinkQuery {
                        name,
                        structure: structure.clone(),
                        inertial: self.mass,
                        visual,
                        collision: self.collider,
                        joint,
                    },
                )
            },
        }
    }
}

/// What a query for links reads of the entity `node`.
pub open spec fn link_query_of(node: EntityNodeView) -> Option<LinkQueryView> {
    match node.structure {
        None => None,
        Some(structure) => Some(
            LinkQueryView {
                name: node.name,
                structure,
                inertial: node.mass,
                visual: node.geometry,
                collision: node.collider,
                joint: node.joint,
            },
        ),
    }
}

/// What a query for links reads of the entities `nodes`: one item for each
/// entity that says which robot it belongs to, in the order of the entities.
pub open spec fn query_of(nodes: Seq<EntityNodeView>) -> Seq<LinkQueryView>
    decreases nodes.len(),
{
    if nodes.len() == 0 {
        Seq::empty()
    } else {
        let before = query_of(nodes.drop_last());
        match link_query_of(nodes.last()) {
            Some(item) => before.push(item),
            None => before,
        }
    }
}

/// Entities, each known by the name of its link.
pub struct EntityGraph {
    names: NameTable,
    nodes: Vec<EntityNode>,
}

impl EntityGraph {
    /// The names of the entities, in the order in which they were created.
    pub closed spec fn names(&self) -> Seq<Seq<char>> {
        self.names@
    }

    /// The entities, in the order in which they were created.
    pub closed spec fn nodes(&self) -> Seq<EntityNodeView> {
        self.nodes.deep_view()
    }

    /// There is one name for each entity, and no name is used twice.
    pub closed spec fn wf(&self) -> bool {
        &&& self.names.wf()
        &&& self.names@.len() == self.nodes@.len()
    }

    /// Every entity has a name of its own.
    pub proof fn lemma_wf(&self)
        requires
            self.wf(),
        ensures
            self.names().no_duplicates(),
            self.names().len() == self.nodes().len(),
    {
    }

    /// The graph without entities.
    pub fn new() -> (graph: EntityGraph)
        ensures
            graph.wf(),
            graph.names() == Seq::<Seq<char>>::empty(),
            graph.nodes() == Seq::<EntityNodeView>::empty(),
    {
        let graph = EntityGraph { names: NameTable::new(), nodes: Vec::new() };
        assert(graph.nodes() =~= Seq::<EntityNodeView>::empty());
        graph
    }

    /// The number of entities.
    pub fn len(&self) -> (n: usize)
        requires
            self.wf(),
        ensures
            n == self.nodes().len(),
            n == self.names().len(),
    {
        self.nodes.len()
    }

    /// The entity of the name `name`, if there is one.
    pub fn find(&self, name: &str) -> (entity: Option<usize>)
        requires
            self.wf(),
        ensures
            match entity {
                Some(e) => e < self.names().len() && self.names()[e as int] == name@,
                None => !self.names().contains(name@),
            },
    {
        self.names.find(name)
    }

    /// The entity of the name `name`. If there is none yet, one without
    /// attributes is created. No other entity is touched.
    pub fn get_or_create(&mut self, name: &str) -> (entity: usize)
        requires
            old(self).wf(),
        ensures
            final(self).wf(),
            entity < final(self).names().len(),
            final(self).names()[entity as int] == name@,
            old(self).names().contains(name@) ==> {
                &&& final(self).names() == old(self).names()
                &&& final(self).nodes() == old(self).nodes()
            },
            !old(self).names().contains(name@) ==> {
                &&& entity == old(self).names().len()
                &&& final(self).names() == old(self).names().push(name@)
                &&& final(self).nodes() == old(self).nodes().push(EntityNodeView::empty())
            },
    {
        let entity = self.names.intern(name);
        if entity >= self.nodes.len() {
            self.nodes.push(EntityNode::empty());
            assert(self.nodes() =~= old(self).nodes().push(EntityNodeView::empty()));
        }
        entity
    }

    /// The name of the entity `entity`.
    pub fn name(&self, entity: usize) -> (name: &String)
        requires
            self.wf(),
            entity < self.names().len(),
        ensures
            name@ == self.names()[entity as int],
    {
        self.names.name(entity)
    }

    /// The entity `entity`.
    pub fn node(&self, entity: usize) -> (node: &EntityNode)
        requires
            self.wf(),
            entity < self.nodes().len(),
        ensures
            node@ == self.nodes()[entity as int],
    {
        &self.nodes[entity]
    }

    /// What a query for links reads of the graph.
    pub fn link_query(&self) -> (items: Vec<LinkQuery>)
        requires
            self.wf(),
        ensures
            items.deep_view() == query_of(self.nodes()),
    {
        let mut items: Vec<LinkQuery> = Vec::new();
        let mut i: usize = 0;
        proof {
            assert(self.nodes().take(0) =~= Seq::<EntityNodeView>::empty());
            assert(items.deep_view() =~= Seq::<LinkQueryView>::empty());
        }
        while i < self.nodes.len()
            invariant
                i <= self.nodes.len(),
                items.deep_view() == query_of(self.nodes().take(i as int)),
            decreases self.nodes.len() - i,
        {
            let ghost before = items.deep_view();
            assert(self.nodes().take(i + 1).drop_last() =~= self.nodes().take(i as int));
            assert(self.nodes().take(i + 1).last() == self.nodes[i as int]@);
            match self.nodes[i].link_query() {
                Some(item) => {
                    items.push(item);
                    assert(items.deep_view() =~= before.push(item@));
                },
                None => {},
            }
            i += 1;
        }
        assert(self.nodes().take(i as int) =~= self.nodes());
        items
    }

    /// Puts the attributes of `link`, a link of the robot `robot`, on the
    /// entity `entity`. Where the shape of the link cannot be taken over, the
    /// graph stays as it was.
    pub fn attach_link(&mut self, entity: usize, robot: &str, link: &LinkWrapper) -> (done:
        Result<(), TranslationError>)
        requires
            old(self).wf(),
            entity < old(self).nodes().len(),
        ensures
            final(self).wf(),
            final(self).names() == old(self).names(),
            match done {
                Ok(_) => link_shape(link@) is Ok && final(self).nodes() == old(self).nodes().update(
                    entity as int,
                    old(self).nodes()[entity as int].with_link(robot@, link@),
                ),
                Err(e) => link_shape(link@) == Err::<
                    Option<FileCheckPickerView>,
                    TranslationErrorView,
                >(e@) && final(self).nodes() == old(self).nodes(),
            },
    {
        let done = self.nodes[entity].attach_link(robot, link);
        proof {
            match done {
                Ok(_) => {
                    assert(self.nodes() =~= old(self).nodes().update(
                        entity as int,
                        old(self).nodes()[entity as int].with_link(robot@, link@),
                    ));
                },
                Err(_) => {
                    assert(self.nodes() =~= old(self).nodes());
                },
            }
        }
        done
    }

    /// Puts the joint attribute `joint` on the entity `entity` and makes it
    /// movable.
    pub fn attach_joint(&mut self, entity: usize, joint: JointFlag)
        requires
            old(self).wf(),
            entity < old(self).nodes().len(),
        ensures
            final(self).wf(),
            final(self).names() == old(self).names(),
            final(self).nodes() == old(self).nodes().update(
                entity as int,
                old(self).nodes()[entity as int].with_joint(joint@),
            ),
    {
        self.nodes[entity].attach_joint(joint);
        assert(self.nodes() =~= old(self).nodes().update(
            entity as int,
            old(self).nodes()[entity as int].with_joint(joint@),
        ));
    }
}

/// It makes no difference whether the link or the joint is put on an entity
/// first.
pub proof fn lemma_attach_in_either_order(
    node: EntityNodeView,
    robot: Seq<char>,
    link: LinkView,
    joint: JointFlagView,
)
    ensures
        node.with_link(robot, link).with_joint(joint) == node.with_joint(joint).with_link(
            robot,
            link,
        ),
{
}

} // verus!
