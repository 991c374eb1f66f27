//! The player's control systems and the bundle that registers them.

pub mod movement;
pub mod rotation;

use vstd::prelude::*;

verus! {

/// Name under which the input bundle registers its system; the control
/// systems run after it.
pub const INPUT_SYSTEM: &'static str = "input_system";

/// Name of the system that tracks whether the window has the focus.
pub const MOUSE_FOCUS_SYSTEM: &'static str = "mouse_focus";

/// Name of the system that hides the cursor while the window has the focus.
pub const CURSOR_HIDE_SYSTEM: &'static str = "cursor_hide";

/// Name of the rotation system of the bundle.
pub const ROTATION_SYSTEM: &'static str = "my_control_rotation";

/// Name of the movement system of the bundle.
pub const MOVEMENT_SYSTEM: &'static str = "my_control_movement";

/// The systems that the control bundle registers.
#[derive(Clone, Copy, Debug, PartialEq, Eq, Structural)]
pub enum ControlSystem {
    MouseFocusUpdate,
    CursorHide,
    FreeRotation,
    FlyMovement,
}

/// One registration of a system with a dispatcher: the system, the name it is
/// registered under and the names of the systems it runs after.
pub struct SystemRegistration {
    pub system: ControlSystem,
    pub name: &'static str,
    pub dependencies: Vec<&'static str>,
}

/// A registration with its names taken as character sequences.
pub struct RegistrationView {
    pub system: ControlSystem,
    pub name: Seq<char>,
    pub dependencies: Seq<Seq<char>>,
}

impl View for SystemRegistration {
    type V = RegistrationView;

    open spec fn view(&self) -> RegistrationView {
        RegistrationView {
            system: self.system,
            name: self.name@,
            dependencies: self.dependencies@.map_values(|d: &'static str| d@),
        }
    }
}

/// The registrations of the control bundle, in the order in which they are
/// made: the focus tracker, the cursor hider after it, then the rotation and
/// the movement systems, each after the input system and the cursor hider.
pub open spec fn control_plan() -> Seq<RegistrationView> {
    seq![
        RegistrationView {
            system: ControlSystem::MouseFocusUpdate,
            name: MOUSE_FOCUS_SYSTEM@,
            dependencies: seq![],
        },
        RegistrationView {
            system: ControlSystem::CursorHide,
            name: CURSOR_HIDE_SYSTEM@,
            dependencies: seq![MOUSE_FOCUS_SYSTEM@],
        },
        RegistrationView {
            system: ControlSystem::FreeRotation,
            name: ROTATION_SYSTEM@,
            dependencies: seq![INPUT_SYSTEM@, CURSOR_HIDE_SYSTEM@],
        },
        RegistrationView {
            system: ControlSystem::FlyMovement,
            name: MOVEMENT_SYSTEM@,
            dependencies: seq![INPUT_SYSTEM@, CURSOR_HIDE_SYSTEM@],
        },
    ]
}

/// Whether some registration before position `i` of `plan` has the name `name`.
pub open spec fn registered_before(plan: Seq<RegistrationView>, name: Seq<char>, i: int) -> bool {
    exists|j: int| 0 <= j < i && #[trigger] plan[j].name == name
}

/// Whether a dispatcher that already holds the systems named in `present`
/// accepts the registrations of `plan` one after the other: each dependency
/// is present or registered earlier, and no name is taken twice.
pub open spec fn registration_order_ok(plan: Seq<RegistrationView>, present: Set<Seq<char>>) -> bool {
    &&& forall|i: int, k: int|
        0 <= i < plan.len() && 0 <= k < plan[i].dependencies.len() ==> {
            let dep = #[trigger] plan[i].dependencies[k];
            present.contains(dep) || registered_before(plan, dep, i)
        }
    &&& forall|i: int, j: int|
        0 <= i < j < plan.len() ==> #[trigger] plan[i].name != #[trigger] plan[j].name
    &&& forall|i: int| 0 <= i < plan.len() ==> !present.contains(#[trigger] plan[i].name)
}

/// Registering the control bundle in a dispatcher that already holds the input
/// system succeeds: every system runs only after systems registered before
/// it, and no two systems share a name.
pub proof fn lemma_control_plan_registration_order()
    ensures
        registration_order_ok(control_plan(), set![INPUT_SYSTEM@]),
{
    reveal_strlit("input_system");
    reveal_strlit("mouse_focus");
    reveal_strlit("cursor_hide");
    reveal_strlit("my_control_rotation");
    reveal_strlit("my_control_movement");
    let plan = control_plan();
    let present = set![INPUT_SYSTEM@];
    assert(INPUT_SYSTEM@.len() == 12 && MOUSE_FOCUS_SYSTEM@.len() == 11);
    assert(CURSOR_HIDE_SYSTEM@.len() == 11 && ROTATION_SYSTEM@.len() == 19);
    assert(MOVEMENT_SYSTEM@.len() == 19);
    assert(MOUSE_FOCUS_SYSTEM@[0] != CURSOR_HIDE_SYSTEM@[0]);
    assert(ROTATION_SYSTEM@[11] != MOVEMENT_SYSTEM@[11]);
    assert(registered_before(plan, MOUSE_FOCUS_SYSTEM@, 1)) by {
        assert(plan[0].name == MOUSE_FOCUS_SYSTEM@);
    }
    assert(registered_before(plan, CURSOR_HIDE_SYSTEM@, 2)) by {
        assert(plan[1].name == CURSOR_HIDE_SYSTEM@);
    }
    assert(registered_before(plan, CURSOR_HIDE_SYSTEM@, 3)) by {
        assert(plan[1].name == CURSOR_HIDE_SYSTEM@);
    }
    assert forall|i: int, k: int|
        0 <= i < plan.len() && 0 <= k < plan[i].dependencies.len() implies {
            let dep = #[trigger] plan[i].dependencies[k];
            present.contains(dep) || registered_before(plan, dep, i)
        } by {
        if i == 1 {
            assert(plan[i].dependencies[k] == MOUSE_FOCUS_SYSTEM@);
        } else if i >= 2 {
            if k == 0 {
                assert(present.contains(INPUT_SYSTEM@));
            } else {
                assert(plan[i].dependencies[k] == CURSOR_HIDE_SYSTEM@);
            }
        }
    }
}

/// The transform bundle runs after the systems named [`ROTATION_SYSTEM`] and
/// [`MOVEMENT_SYSTEM`]; the control bundle registers both of them.
pub proof fn lemma_control_plan_provides_transform_dependencies(name: Seq<char>)
    requires
        name == ROTATION_SYSTEM@ || name == MOVEMENT_SYSTEM@,
    ensures
        registered_before(control_plan(), name, control_plan().len() as int),
{
    let plan = control_plan();
    if name == ROTATION_SYSTEM@ {
        assert(plan[2].name == name);
    } else {
        assert(plan[3].name == name);
    }
}

/// Bundle of the player's control systems (rotation and movement).
pub struct MyControlBundle;

impl MyControlBundle {
    /// A new bundle.
    pub fn new() -> (bundle: MyControlBundle)
        ensures
            bundle == MyControlBundle,
    {
        MyControlBundle
    }

    /// The registrations that the bundle makes with a dispatcher, in order.
    /// The rotation and movement systems read the input handler, so they run
    /// after the input system, which must already be registered.
    pub fn build(&self) -> (plan: Vec<SystemRegistration>)
        ensures
            plan@.len() == control_plan().len(),
            forall|i: int| 0 <= i < plan@.len() ==> #[trigger] plan@[i]@ == control_plan()[i],
    {
        let plan = vec![
            SystemRegistration {
                system: ControlSystem::MouseFocusUpdate,
                name: MOUSE_FOCUS_SYSTEM,
                dependencies: vec![],
            },
            SystemRegistration {
                system: ControlSystem::CursorHide,
                name: CURSOR_HIDE_SYSTEM,
                dependencies: vec![MOUSE_FOCUS_SYSTEM],
            },
            SystemRegistration {
                system: ControlSystem::FreeRotation,
                name: ROTATION_SYSTEM,
                dependencies: vec![INPUT_SYSTEM, CURSOR_HIDE_SYSTEM],
            },
            SystemRegistration {
                system: ControlSystem::FlyMovement,
                name: MOVEMENT_SYSTEM,
                dependencies: vec![INPUT_SYSTEM, CURSOR_HIDE_SYSTEM],
            },
        ];
        proof {
            assert(plan@[0]@.dependencies =~= seq![]);
            assert(plan@[1]@.dependencies =~= seq![MOUSE_FOCUS_SYSTEM@]);
            assert(plan@[2]@.dependencies =~= seq![INPUT_SYSTEM@, CURSOR_HIDE_SYSTEM@]);
            assert(plan@[3]@.dependencies =~= seq![INPUT_SYSTEM@, CURSOR_HIDE_SYSTEM@]);
        }
        plan
    }
}

impl Default for MyControlBundle {
    fn default() -> (bundle: MyControlBundle)
        ensures
            bundle == MyControlBundle,
    {
        MyControlBundle
    }
}

} // verus!
