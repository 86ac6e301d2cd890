use resource_bridge::session::{action_of, exit_code, next_phase};
use resource_bridge::{
    Action, AuditRecord, BridgeError, EngineOptions, Event, GuestExit, Outcome, Phase,
    SandboxSession,
};

fn configured() -> SandboxSession {
    match SandboxSession::configure(EngineOptions::for_bridge()) {
        Ok(session) => session,
        Err(error) => panic!("no engine on this machine: {:?}", error),
    }
}

fn running() -> SandboxSession {
    let mut session = configured();
    assert_eq!(session.step(Event::ProvidersRegistered), Action::Instantiate);
    assert_eq!(session.step(Event::ModuleInstantiated), Action::Enter);
    assert_eq!(session.step(Event::GuestEntered), Action::Await);
    session
}

fn count_destroyed(records: &[AuditRecord]) -> usize {
    let mut count = 0;
    for record in records {
        if matches!(record, AuditRecord::Destroyed { .. }) {
            count += 1;
        }
    }
    count
}

#[test]
fn configure_gives_a_configured_session() {
    let session = configured();
    assert_eq!(session.phase(), Phase::Configured);
    assert_eq!(session.action(), Action::Link);
    assert_eq!(session.adapter().table().len(), 0);
}

#[test]
fn configure_refuses_options_that_cannot_carry_a_session() {
    let options = [
        EngineOptions { component_model: false, async_support: true },
        EngineOptions { component_model: true, async_support: false },
        EngineOptions { component_model: false, async_support: false },
    ];
    for option in options {
        assert!(matches!(SandboxSession::configure(option), Err(BridgeError::Configuration)));
    }
}

#[test]
fn with_engine_follows_the_engine_that_was_built() {
    let refused = SandboxSession::with_engine(
        EngineOptions::for_bridge(),
        Err(anyhow::Error::msg("refused")),
    );
    assert!(matches!(refused, Err(BridgeError::Configuration)));

    let engine = wasmtime::Engine::new(&wasmtime::Config::new());
    let built = engine.is_ok();
    let session = SandboxSession::with_engine(EngineOptions::for_bridge(), engine);
    assert_eq!(session.is_ok(), built);

    let engine = wasmtime::Engine::new(&wasmtime::Config::new());
    let wrong = EngineOptions { component_model: false, async_support: true };
    assert!(matches!(
        SandboxSession::with_engine(wrong, engine),
        Err(BridgeError::Configuration)
    ));
}

#[test]
fn session_scenario_new_get_set_drop() {
    let mut session = running();
    let h0 = session.new(7).unwrap();
    assert_eq!(session.get(h0), Ok(7));
    assert_eq!(session.set(h0, 9), Ok(()));
    assert_eq!(session.get(h0), Ok(9));
    assert_eq!(session.drop(h0), Ok(()));
    assert_eq!(session.get(h0), Err(BridgeError::UnknownHandle(h0)));
    assert_eq!(session.step(Event::GuestReturned(GuestExit::Success)), Action::Exit(0));
    assert_eq!(session.phase(), Phase::Terminated(Outcome::Completed));
}

#[test]
fn missing_provider_ends_the_session_before_the_guest_runs() {
    let mut session = configured();
    assert_eq!(session.step(Event::ProviderMissing), Action::Exit(1));
    assert_eq!(session.phase(), Phase::Terminated(Outcome::Failed(BridgeError::Link)));
    assert_eq!(session.step(Event::ModuleInstantiated), Action::Exit(1));
    assert_eq!(session.step(Event::GuestEntered), Action::Exit(1));
    assert_eq!(session.phase(), Phase::Terminated(Outcome::Failed(BridgeError::Link)));
    assert_eq!(session.new(1), Err(BridgeError::GuestTrap));
    assert_eq!(session.take_audit(), vec![]);
}

#[test]
fn rejected_module_ends_the_session() {
    let mut session = configured();
    assert_eq!(session.step(Event::ProvidersRegistered), Action::Instantiate);
    assert_eq!(session.step(Event::ModuleRejected), Action::Exit(1));
    assert_eq!(
        session.phase(),
        Phase::Terminated(Outcome::Failed(BridgeError::Instantiation))
    );
}

#[test]
fn unknown_handle_fails_one_call_and_the_guest_runs_on() {
    let mut session = running();
    assert_eq!(session.get(12), Err(BridgeError::UnknownHandle(12)));
    assert_eq!(session.phase(), Phase::Running);
    let h = session.new(3).unwrap();
    assert_eq!(session.get(h), Ok(3));
    assert_eq!(session.step(Event::GuestReturned(GuestExit::Success)), Action::Exit(0));
    assert_eq!(session.phase(), Phase::Terminated(Outcome::Completed));
}

#[test]
fn teardown_releases_every_object_left_live() {
    let mut session = running();
    let n: u32 = 64;
    for i in 0..n {
        assert_eq!(session.new(i + 100), Ok(i));
    }
    assert_eq!(session.take_audit().len(), n as usize);
    assert_eq!(session.step(Event::GuestReturned(GuestExit::Success)), Action::Exit(0));
    let records = session.take_audit();
    assert_eq!(count_destroyed(&records), n as usize);
    assert_eq!(records.len(), n as usize);
    for i in 0..n {
        assert_eq!(
            records[i as usize],
            AuditRecord::Destroyed { handle: i, state: i + 100 }
        );
    }
    assert_eq!(session.adapter().table().len(), 0);
    assert_eq!(session.get(0), Err(BridgeError::UnknownHandle(0)));
}

#[test]
fn teardown_skips_what_the_guest_dropped() {
    let mut session = running();
    let a = session.new(1).unwrap();
    let b = session.new(2).unwrap();
    assert_eq!(session.drop(a), Ok(()));
    assert_eq!(session.take_audit().len(), 3);
    assert_eq!(session.step(Event::GuestReturned(GuestExit::Failure)), Action::Exit(1));
    assert_eq!(session.phase(), Phase::Terminated(Outcome::GuestFailed));
    assert_eq!(session.take_audit(), vec![AuditRecord::Destroyed { handle: b, state: 2 }]);
}

#[test]
fn guest_trap_ends_the_session_and_releases() {
    let mut session = running();
    let h = session.new(5).unwrap();
    assert_eq!(session.step(Event::GuestTrapped), Action::Exit(1));
    assert_eq!(
        session.phase(),
        Phase::Terminated(Outcome::Failed(BridgeError::GuestTrap))
    );
    assert_eq!(session.get(h), Err(BridgeError::UnknownHandle(h)));
    let records = session.take_audit();
    assert_eq!(count_destroyed(&records), 1);
}

#[test]
fn cancellation_ends_the_session_in_every_phase() {
    let mut session = configured();
    assert_eq!(session.step(Event::Cancelled), Action::Exit(1));
    assert_eq!(session.phase(), Phase::Terminated(Outcome::Cancelled));

    let mut session = running();
    let h = session.new(8).unwrap();
    assert_eq!(session.take_audit().len(), 1);
    assert_eq!(session.step(Event::Cancelled), Action::Exit(1));
    assert_eq!(session.phase(), Phase::Terminated(Outcome::Cancelled));
    assert_eq!(session.take_audit(), vec![AuditRecord::Destroyed { handle: h, state: 8 }]);
}

#[test]
fn events_out_of_turn_change_nothing() {
    let mut session = configured();
    assert_eq!(session.step(Event::GuestEntered), Action::Link);
    assert_eq!(session.step(Event::ModuleInstantiated), Action::Link);
    assert_eq!(session.step(Event::GuestTrapped), Action::Link);
    assert_eq!(session.step(Event::GuestReturned(GuestExit::Success)), Action::Link);
    assert_eq!(session.phase(), Phase::Configured);
    assert_eq!(session.step(Event::ProvidersRegistered), Action::Instantiate);
    assert_eq!(session.step(Event::ProvidersRegistered), Action::Instantiate);
    assert_eq!(session.step(Event::GuestEntered), Action::Instantiate);
    assert_eq!(session.phase(), Phase::Linked);
}

#[test]
fn guest_calls_create_nothing_unless_the_guest_runs() {
    let mut session = configured();
    assert_eq!(session.new(1), Err(BridgeError::GuestTrap));
    assert_eq!(session.get(0), Err(BridgeError::UnknownHandle(0)));
    assert_eq!(session.set(0, 1), Err(BridgeError::UnknownHandle(0)));
    assert_eq!(session.drop(0), Err(BridgeError::UnknownHandle(0)));
    assert_eq!(session.adapter().table().len(), 0);
    assert_eq!(session.take_audit(), vec![]);
}

#[test]
fn nothing_follows_the_end_of_a_session() {
    let mut session = running();
    assert_eq!(session.step(Event::GuestReturned(GuestExit::Success)), Action::Exit(0));
    assert_eq!(session.step(Event::GuestEntered), Action::Exit(0));
    assert_eq!(session.step(Event::Cancelled), Action::Exit(0));
    assert_eq!(session.step(Event::GuestTrapped), Action::Exit(0));
    assert_eq!(session.phase(), Phase::Terminated(Outcome::Completed));
    assert_eq!(session.new(1), Err(BridgeError::GuestTrap));
    session.fail(BridgeError::Link);
    assert_eq!(session.phase(), Phase::Terminated(Outcome::Completed));
}

#[test]
fn fail_ends_the_session_with_the_error_given() {
    let mut session = running();
    let h = session.new(2).unwrap();
    session.fail(BridgeError::Instantiation);
    assert_eq!(
        session.phase(),
        Phase::Terminated(Outcome::Failed(BridgeError::Instantiation))
    );
    assert_eq!(session.action(), Action::Exit(1));
    assert_eq!(session.get(h), Err(BridgeError::UnknownHandle(h)));
}

#[test]
fn load_rejects_a_malformed_image() {
    let mut session = configured();
    assert_eq!(session.step(Event::ProvidersRegistered), Action::Instantiate);
    let garbage = [1u8, 2, 3, 4, 5];
    assert!(matches!(session.load(&garbage), Err(BridgeError::Instantiation)));
    assert_eq!(
        session.phase(),
        Phase::Terminated(Outcome::Failed(BridgeError::Instantiation))
    );
}

#[test]
fn load_accepts_an_empty_component() {
    let mut session = configured();
    assert_eq!(session.step(Event::ProvidersRegistered), Action::Instantiate);
    let image = [0x00u8, 0x61, 0x73, 0x6d, 0x0d, 0x00, 0x01, 0x00];
    assert!(session.load(&image).is_ok());
    assert_eq!(session.phase(), Phase::Linked);
}

#[test]
fn admit_module_ends_the_session_on_a_rejected_image() {
    let mut session = configured();
    assert_eq!(session.step(Event::ProvidersRegistered), Action::Instantiate);
    let rejected = session.admit_module(Err(anyhow::Error::msg("malformed")));
    assert!(matches!(rejected, Err(BridgeError::Instantiation)));
    assert_eq!(session.action(), Action::Exit(1));
}

#[test]
fn next_phase_follows_the_lifecycle() {
    assert_eq!(next_phase(Phase::Configured, Event::ProvidersRegistered), Phase::Linked);
    assert_eq!(next_phase(Phase::Linked, Event::ModuleInstantiated), Phase::Instantiated);
    assert_eq!(next_phase(Phase::Instantiated, Event::GuestEntered), Phase::Running);
    assert_eq!(
        next_phase(Phase::Running, Event::GuestReturned(GuestExit::Success)),
        Phase::Terminated(Outcome::Completed)
    );
    assert_eq!(
        next_phase(Phase::Running, Event::GuestReturned(GuestExit::Failure)),
        Phase::Terminated(Outcome::GuestFailed)
    );
    assert_eq!(next_phase(Phase::Linked, Event::GuestEntered), Phase::Linked);
    assert_eq!(
        next_phase(Phase::Instantiated, Event::Cancelled),
        Phase::Terminated(Outcome::Cancelled)
    );
}

#[test]
fn exit_code_is_zero_only_for_a_guest_that_succeeded() {
    assert_eq!(exit_code(Outcome::Completed), 0);
    assert_eq!(exit_code(Outcome::GuestFailed), 1);
    assert_eq!(exit_code(Outcome::Cancelled), 1);
    assert_eq!(exit_code(Outcome::Failed(BridgeError::Configuration)), 1);
    assert_eq!(exit_code(Outcome::Failed(BridgeError::Link)), 1);
    assert_eq!(exit_code(Outcome::Failed(BridgeError::Instantiation)), 1);
    assert_eq!(exit_code(Outcome::Failed(BridgeError::GuestTrap)), 1);
    assert_eq!(action_of(Phase::Running), Action::Await);
    assert_eq!(action_of(Phase::Terminated(Outcome::Completed)), Action::Exit(0));
}

#[test]
fn session_keeps_the_engine_it_was_built_on() {
    let engine = match wasmtime::Engine::new(&wasmtime::Config::new()) {
        Ok(engine) => engine,
        Err(error) => panic!("no engine on this machine: {:?}", error),
    };
    let stranger = match wasmtime::Engine::new(&wasmtime::Config::new()) {
        Ok(engine) => engine,
        Err(error) => panic!("no engine on this machine: {:?}", error),
    };
    let built = engine.clone();
    let mut session = match SandboxSession::with_engine(EngineOptions::for_bridge(), Ok(built)) {
        Ok(session) => session,
        Err(error) => panic!("no session: {:?}", error),
    };
    assert!(wasmtime::Engine::same(session.engine(), &engine));
    assert!(!wasmtime::Engine::same(session.engine(), &stranger));
    assert_eq!(session.step(Event::ProvidersRegistered), Action::Instantiate);
    assert_eq!(session.step(Event::Cancelled), Action::Exit(1));
    assert!(wasmtime::Engine::same(session.engine(), &engine));
}
