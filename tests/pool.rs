use request_edge::error::Error;
use request_edge::pool::{BackendCall, Manager, Upkeep, UpkeepProgress, DATABASE, NAMESPACE};

fn manager() -> Manager {
    Manager::new("ws://db.local:8000", 4).unwrap()
}

fn next(u: Upkeep, ok: bool) -> UpkeepProgress {
    u.advance(ok)
}

fn continued(p: UpkeepProgress) -> Upkeep {
    match p {
        UpkeepProgress::Continue(u) => u,
        UpkeepProgress::Finished(_) => panic!("upkeep ended early"),
    }
}

fn finished(p: UpkeepProgress) -> Result<(), Error> {
    match p {
        UpkeepProgress::Continue(_) => panic!("upkeep still running"),
        UpkeepProgress::Finished(r) => r,
    }
}

#[test]
fn manager_keeps_its_settings() {
    let m = manager();
    assert_eq!(m.url(), "ws://db.local:8000");
    assert_eq!(m.max_size(), 4);
    assert_eq!((NAMESPACE, DATABASE), ("demo", "demo"));
}

#[test]
fn empty_pool_is_configuration_error() {
    assert_eq!(Manager::new("ws://db.local:8000", 0), Err(Error::ConfigurationInvalid));
    assert_eq!(Manager::new("ws://db.local:8000", 1).unwrap().max_size(), 1);
}

#[test]
fn recycle_invalidates_then_selects_context() {
    let u = manager().recycle();
    assert_eq!(u.call(), BackendCall::Invalidate);
    let u = continued(next(u, true));
    assert_eq!(u.call(), BackendCall::UseContext);
    assert_eq!(finished(next(u, true)), Ok(()));
}

#[test]
fn create_connects_then_selects_context() {
    let u = manager().create();
    assert_eq!(u.call(), BackendCall::Connect);
    let u = continued(next(u, true));
    assert_eq!(u.call(), BackendCall::UseContext);
    assert_eq!(finished(next(u, true)), Ok(()));
}

#[test]
fn failed_invalidate_discards_connection() {
    let u = manager().recycle();
    assert_eq!(finished(next(u, false)), Err(Error::BackendUnavailable));
}

#[test]
fn failed_context_selection_discards_connection() {
    let u = continued(next(manager().recycle(), true));
    assert_eq!(finished(next(u, false)), Err(Error::BackendUnavailable));
    let u = continued(next(manager().create(), true));
    assert_eq!(finished(next(u, false)), Err(Error::BackendUnavailable));
}
