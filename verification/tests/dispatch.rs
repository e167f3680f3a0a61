//! The scheduler: dependencies and conflicting access sets push systems
//! into later stages, compatible systems share one, and a dependency on
//! an undeclared system is refused.

use ld49::dispatcher::{conflicts, AccessSet, DispatchError, Dispatcher, SystemDecl, SystemId,
    ACCESS_DELTA_TIME, ACCESS_PLAYER, ACCESS_TRANSFORM};

fn decl(id: SystemId, deps: Vec<SystemId>, reads: u32, writes: u32) -> SystemDecl {
    SystemDecl { id, deps, access: AccessSet { reads, writes } }
}

#[test]
fn dependencies_and_conflicts_order_stages() {
    let decls = vec![
        // Writes transforms.
        decl(SystemId::GameManager, vec![], ACCESS_DELTA_TIME, ACCESS_TRANSFORM),
        // Declared to follow the first system.
        decl(
            SystemId::PlayerMovement,
            vec![SystemId::GameManager],
            ACCESS_DELTA_TIME,
            ACCESS_PLAYER,
        ),
        // No declared dependency, but reads what the first system writes:
        // the conflict alone orders it after.
        decl(SystemId::VelocityApplicator, vec![], ACCESS_TRANSFORM, 0),
        // Touches nothing anyone writes: may share the first stage.
        decl(SystemId::BackgroundAnimator, vec![], ACCESS_DELTA_TIME, 0),
    ];
    let d = match Dispatcher::build(decls) {
        Ok(d) => d,
        Err(_) => panic!("every dependency names an earlier system"),
    };
    assert_eq!(d.len(), 4);
    assert_eq!(d.id_at(0), SystemId::GameManager);
    assert!(d.stage_at(1) > d.stage_at(0), "a dependency runs strictly later");
    assert!(d.stage_at(2) > d.stage_at(0), "a conflicting reader runs strictly later");
    assert_eq!(d.stage_at(3), d.stage_at(0), "read/read sharing is compatible");
}

#[test]
fn unknown_dependency_is_refused() {
    let decls = vec![
        decl(
            SystemId::PlayerMovement,
            vec![SystemId::GameManager],
            ACCESS_DELTA_TIME,
            ACCESS_PLAYER,
        ),
    ];
    match Dispatcher::build(decls) {
        Ok(_) => panic!("a dependency on an undeclared system must be refused"),
        Err(e) => assert_eq!(e, DispatchError::UnknownDependency),
    }
}

#[test]
fn conflict_is_write_against_any_access() {
    let writer = AccessSet { reads: 0, writes: ACCESS_TRANSFORM };
    let reader = AccessSet { reads: ACCESS_TRANSFORM, writes: 0 };
    let other = AccessSet { reads: ACCESS_DELTA_TIME, writes: 0 };
    assert!(conflicts(writer, reader));
    assert!(conflicts(reader, writer));
    assert!(conflicts(writer, writer));
    assert!(!conflicts(reader, reader));
    assert!(!conflicts(writer, other));
}
