use proc_names::error::{EnumError, NameError, OsError};
use proc_names::lookup::{Lookup, Request, MAX_TURNS};
use proc_names::name::{ModuleQuery, ModulesReply, NameQuery, NameReply};
use proc_names::process::{CloseRequest, OpenReply, OpenRequest};
use proc_names::report::{Outcome, Stream};
use proc_names::snapshot::{Enumeration, Enumerator, IdsReply};

const ACCESS_DENIED: u32 = 5;
const PARTIAL_COPY: u32 = 299;
const INVALID_PARAMETER: u32 = 87;

/// One process of the simulated system.
struct Simulated {
    pid: u32,
    /// The error that opening fails with, if it fails.
    open_error: Option<u32>,
    /// The error that listing the modules fails with, if it fails.
    modules_error: Option<u32>,
    /// The bytes of the base name; none makes the name query fail.
    name: Vec<u8>,
}

fn simulated(pid: u32, name: &[u8]) -> Simulated {
    Simulated { pid, open_error: None, modules_error: None, name: name.to_vec() }
}

/// A system that keeps account of the handles it has given out.
struct System {
    processes: Vec<Simulated>,
    /// The error that listing the processes fails with, if it fails.
    list_error: Option<u32>,
    next_handle: usize,
    /// The handles that are open, each with the index of its process.
    live: Vec<(usize, usize)>,
    opened: usize,
    released: Vec<usize>,
    log: Vec<Request>,
}

impl System {
    fn new(processes: Vec<Simulated>) -> System {
        System {
            processes,
            list_error: None,
            next_handle: 0x100,
            live: Vec::new(),
            opened: 0,
            released: Vec::new(),
            log: Vec::new(),
        }
    }

    fn process_behind(&self, handle: usize) -> &Simulated {
        let found = self.live.iter().find(|entry| entry.0 == handle);
        match found {
            Some(entry) => &self.processes[entry.1],
            None => panic!("handle {handle:#x} is not open"),
        }
    }

    fn list(&mut self, request: Enumerator) -> IdsReply {
        match self.list_error {
            Some(code) => IdsReply { succeeded: false, ids: Vec::new(), last_error: code },
            None => {
                let mut ids: Vec<u32> = self.processes.iter().map(|process| process.pid).collect();
                ids.truncate(request.capacity);
                IdsReply { succeeded: true, ids, last_error: 0 }
            }
        }
    }

    fn open(&mut self, request: OpenRequest) -> OpenReply {
        self.log.push(Request::Open(request));
        assert_eq!(request.access, 0x0410);
        assert!(!request.inherit);
        let index = self.processes.iter().position(|process| process.pid == request.pid);
        match index {
            None => OpenReply { handle: 0, last_error: INVALID_PARAMETER },
            Some(index) => match self.processes[index].open_error {
                Some(code) => OpenReply { handle: 0, last_error: code },
                None => {
                    let handle = self.next_handle;
                    self.next_handle += 4;
                    self.live.push((handle, index));
                    self.opened += 1;
                    OpenReply { handle, last_error: 0 }
                }
            },
        }
    }

    fn modules(&mut self, query: ModuleQuery) -> ModulesReply {
        self.log.push(Request::Modules(query));
        let process = self.process_behind(query.handle);
        match process.modules_error {
            Some(code) => ModulesReply { succeeded: false, module: 0, last_error: code },
            None => ModulesReply { succeeded: true, module: 0x400000, last_error: 0 },
        }
    }

    fn name(&mut self, query: NameQuery) -> NameReply {
        self.log.push(Request::Name(query));
        assert_eq!(query.module, 0x400000);
        let process = self.process_behind(query.handle);
        if process.name.is_empty() {
            return NameReply { bytes: Vec::new(), last_error: PARTIAL_COPY };
        }
        let length = process.name.len().min(query.capacity);
        NameReply { bytes: process.name[..length].to_vec(), last_error: 0 }
    }

    fn close(&mut self, request: CloseRequest) {
        self.log.push(Request::Close(request));
        let position = self.live.iter().position(|entry| entry.0 == request.handle);
        match position {
            Some(position) => {
                self.live.remove(position);
                self.released.push(request.handle);
            }
            None => panic!("handle {:#x} released while not open", request.handle),
        }
    }
}

/// Runs one lookup to its end against `system`.
fn look_up(system: &mut System, pid: u32) -> Outcome {
    let mut lookup = Lookup::start(pid);
    let mut turns = 0;
    loop {
        assert!(turns <= MAX_TURNS);
        turns += 1;
        lookup = match lookup {
            Lookup::Opening(state) => {
                let reply = system.open(state.request());
                state.advance(reply)
            }
            Lookup::Finding(state) => {
                let reply = system.modules(state.request());
                state.advance(reply)
            }
            Lookup::Reading(state) => {
                let reply = system.name(state.request());
                state.advance(reply)
            }
            Lookup::Closing(state) => {
                system.close(state.request());
                state.advance()
            }
            Lookup::Done(outcome) => return outcome,
        };
    }
}

/// Takes the snapshot of the identifiers on `system`.
fn enumerate(system: &mut System) -> Result<Vec<u32>, EnumError> {
    let mut request = Enumerator::new();
    loop {
        match request.advance(system.list(request)) {
            Enumeration::Retry(next) => request = next,
            Enumeration::Done(ids) => return Ok(ids),
            Enumeration::Failed(error) => return Err(error),
        }
    }
}

/// A whole run: the snapshot, then one report line for each identifier.
fn run(system: &mut System) -> Result<Vec<(Stream, String)>, EnumError> {
    let pids = enumerate(system)?;
    let mut lines = Vec::new();
    for pid in pids {
        let outcome = look_up(system, pid);
        lines.push(report(&outcome));
    }
    Ok(lines)
}

fn describe(code: u32) -> String {
    match code {
        ACCESS_DENIED => "Access is denied.".to_string(),
        PARTIAL_COPY => {
            "Only part of a ReadProcessMemory or WriteProcessMemory request was completed."
                .to_string()
        }
        _ => format!("Unknown error {code}."),
    }
}

fn report(outcome: &Outcome) -> (Stream, String) {
    let text = match outcome.os_error() {
        Some(error) => describe(error.code),
        None => String::new(),
    };
    (outcome.stream(), outcome.line(&text))
}

#[test]
fn restricted_resolved_and_exited_processes_are_each_reported() {
    let mut system = System::new(vec![
        Simulated { pid: 4, open_error: Some(ACCESS_DENIED), modules_error: None, name: Vec::new() },
        simulated(1000, b"explorer.exe"),
        Simulated {
            pid: 2000,
            open_error: None,
            modules_error: Some(PARTIAL_COPY),
            name: b"gone.exe".to_vec(),
        },
    ]);
    assert_eq!(enumerate(&mut system), Ok(vec![4, 1000, 2000]));
    let lines = run(&mut system).unwrap();
    assert_eq!(
        lines,
        vec![
            (Stream::Error, "Failed to open 4: Access is denied.".to_string()),
            (Stream::Output, "1000: explorer.exe".to_string()),
            (
                Stream::Output,
                "2000: (failed to get name: Only part of a ReadProcessMemory or \
                 WriteProcessMemory request was completed.)"
                    .to_string()
            ),
        ]
    );
    assert_eq!(system.opened, 2);
    assert_eq!(system.released, vec![0x100, 0x104]);
    assert!(system.live.is_empty());
}

#[test]
fn a_failed_enumeration_ends_the_run_without_a_line() {
    let mut system = System::new(vec![simulated(1000, b"explorer.exe")]);
    system.list_error = Some(ACCESS_DENIED);
    assert_eq!(run(&mut system), Err(EnumError::Os(OsError { code: ACCESS_DENIED })));
    assert!(system.log.is_empty());
    assert_eq!(system.opened, 0);
}

#[test]
fn a_run_reports_every_process_of_a_large_system() {
    let processes = (0..3000u32).map(|index| simulated(index * 4, b"svchost.exe")).collect();
    let mut system = System::new(processes);
    let lines = run(&mut system).unwrap();
    assert_eq!(lines.len(), 3000);
    assert_eq!(lines[0], (Stream::Output, "0: svchost.exe".to_string()));
    assert_eq!(lines[2999], (Stream::Output, "11996: svchost.exe".to_string()));
    assert_eq!(system.opened, 3000);
    assert_eq!(system.released.len(), 3000);
    assert!(system.live.is_empty());
}

#[test]
fn every_identifier_yields_exactly_one_outcome() {
    let mut system = System::new(vec![
        Simulated { pid: 8, open_error: Some(ACCESS_DENIED), modules_error: None, name: Vec::new() },
        simulated(12, b"a.exe"),
        Simulated { pid: 16, open_error: None, modules_error: Some(6), name: Vec::new() },
        simulated(20, b""),
        simulated(24, &[0xff, 0xfe]),
        simulated(28, &[b'x'; 40000]),
    ]);
    let outcomes: Vec<Outcome> =
        [8, 12, 16, 20, 24, 28, 32].iter().map(|pid| look_up(&mut system, *pid)).collect();
    assert_eq!(
        outcomes,
        vec![
            Outcome::OpenFailed { pid: 8, error: OsError { code: ACCESS_DENIED } },
            Outcome::Named { pid: 12, name: "a.exe".to_string() },
            Outcome::NameFailed { pid: 16, error: NameError::Os(OsError { code: 6 }) },
            Outcome::NameFailed { pid: 20, error: NameError::Os(OsError { code: PARTIAL_COPY }) },
            Outcome::NameFailed { pid: 24, error: NameError::Decode },
            Outcome::NameFailed { pid: 28, error: NameError::TooLong },
            Outcome::OpenFailed { pid: 32, error: OsError { code: INVALID_PARAMETER } },
        ]
    );
    for (outcome, pid) in outcomes.iter().zip([8, 12, 16, 20, 24, 28, 32]) {
        assert_eq!(outcome.pid(), pid);
    }
}

#[test]
fn every_opened_handle_is_released_exactly_once() {
    let mut system = System::new(vec![
        simulated(12, b"a.exe"),
        Simulated { pid: 16, open_error: None, modules_error: Some(6), name: Vec::new() },
        simulated(20, b""),
        simulated(24, &[0xc3, 0x28]),
        simulated(28, &[b'x'; 40000]),
        Simulated { pid: 36, open_error: Some(ACCESS_DENIED), modules_error: None, name: Vec::new() },
    ]);
    for pid in [12, 16, 20, 24, 28, 36] {
        let before = system.released.len();
        let opened_before = system.opened;
        look_up(&mut system, pid);
        assert!(system.live.is_empty());
        assert_eq!(system.released.len() - before, system.opened - opened_before);
    }
    assert_eq!(system.opened, 5);
    assert_eq!(system.released, vec![0x100, 0x104, 0x108, 0x10c, 0x110]);
}

#[test]
fn the_release_is_the_last_request_of_a_lookup() {
    let mut system = System::new(vec![simulated(12, &[b'n'; 100])]);
    look_up(&mut system, 12);
    assert_eq!(
        system.log,
        vec![
            Request::Open(OpenRequest { pid: 12, access: 0x0410, inherit: false }),
            Request::Modules(ModuleQuery { handle: 0x100 }),
            Request::Name(NameQuery { handle: 0x100, module: 0x400000, capacity: 64 }),
            Request::Name(NameQuery { handle: 0x100, module: 0x400000, capacity: 128 }),
            Request::Close(CloseRequest { handle: 0x100 }),
        ]
    );
}

#[test]
fn a_failed_open_asks_for_nothing_more() {
    let mut system = System::new(Vec::new());
    let outcome = look_up(&mut system, 77);
    assert_eq!(outcome, Outcome::OpenFailed { pid: 77, error: OsError { code: 87 } });
    assert_eq!(
        system.log,
        vec![Request::Open(OpenRequest { pid: 77, access: 0x0410, inherit: false })]
    );
}

#[test]
fn a_name_longer_than_any_fixed_buffer_is_resolved_in_full() {
    let mut long = Vec::new();
    for index in 0..5000usize {
        long.push(b'a' + (index % 26) as u8);
    }
    long.extend_from_slice(b".exe");
    let mut system = System::new(vec![simulated(40, &long)]);
    let outcome = look_up(&mut system, 40);
    let expected = String::from_utf8(long).unwrap();
    assert_eq!(expected.len(), 5004);
    assert_eq!(outcome, Outcome::Named { pid: 40, name: expected });
    let capacities: Vec<usize> = system
        .log
        .iter()
        .filter_map(|request| match request {
            Request::Name(query) => Some(query.capacity),
            _ => None,
        })
        .collect();
    assert_eq!(capacities, vec![64, 128, 256, 512, 1024, 2048, 4096, 8192]);
}

#[test]
fn a_name_that_fills_the_first_buffer_is_resolved_in_full() {
    let name: Vec<u8> = (0..64u8).map(|index| b'A' + index % 26).collect();
    assert_eq!(name.len(), 64);
    let mut system = System::new(vec![simulated(44, &name)]);
    let outcome = look_up(&mut system, 44);
    assert_eq!(
        outcome,
        Outcome::Named {
            pid: 44,
            name: "ABCDEFGHIJKLMNOPQRSTUVWXYZABCDEFGHIJKLMNOPQRSTUVWXYZABCDEFGHIJKL".to_string()
        }
    );
    assert_eq!(system.log.len(), 5);
    assert_eq!(
        system.log[3],
        Request::Name(NameQuery { handle: 0x100, module: 0x400000, capacity: 128 })
    );
}

#[test]
fn a_name_one_byte_short_of_the_first_buffer_needs_one_query() {
    let name = vec![b'z'; 63];
    let mut system = System::new(vec![simulated(48, &name)]);
    let outcome = look_up(&mut system, 48);
    assert_eq!(outcome, Outcome::Named { pid: 48, name: "z".repeat(63) });
    assert_eq!(system.log.len(), 4);
}

#[test]
fn the_longest_name_that_is_resolved_is_one_byte_short_of_the_largest_buffer() {
    let mut system =
        System::new(vec![simulated(52, &[b'k'; 32767]), simulated(56, &[b'k'; 32768])]);
    assert_eq!(look_up(&mut system, 52), Outcome::Named { pid: 52, name: "k".repeat(32767) });
    let before = system.log.len();
    assert_eq!(
        look_up(&mut system, 56),
        Outcome::NameFailed { pid: 56, error: NameError::TooLong }
    );
    assert_eq!(system.log.len() - before, MAX_TURNS);
    assert!(system.live.is_empty());
}

#[test]
fn two_handles_on_one_process_are_independent() {
    let mut system = System::new(vec![simulated(60, b"twice.exe")]);
    let first = match Lookup::start(60) {
        Lookup::Opening(state) => {
            let reply = system.open(state.request());
            state.advance(reply)
        }
        _ => unreachable!(),
    };
    let second = match Lookup::start(60) {
        Lookup::Opening(state) => {
            let reply = system.open(state.request());
            state.advance(reply)
        }
        _ => unreachable!(),
    };
    assert_eq!(first.request(), Some(Request::Modules(ModuleQuery { handle: 0x100 })));
    assert_eq!(second.request(), Some(Request::Modules(ModuleQuery { handle: 0x104 })));

    // The first lookup fails at once and releases its handle.
    let first = match first {
        Lookup::Finding(state) => {
            state.advance(ModulesReply { succeeded: false, module: 0, last_error: 6 })
        }
        _ => unreachable!(),
    };
    let first = match first {
        Lookup::Closing(state) => {
            system.close(state.request());
            state.advance()
        }
        _ => unreachable!(),
    };
    assert!(matches!(first, Lookup::Done(Outcome::NameFailed { pid: 60, .. })));
    assert_eq!(system.released, vec![0x100]);
    assert_eq!(system.live, vec![(0x104, 0)]);

    // The second is unaffected and runs to its end on its own handle.
    let mut second = second;
    let outcome = loop {
        second = match second {
            Lookup::Finding(state) => {
                let reply = system.modules(state.request());
                state.advance(reply)
            }
            Lookup::Reading(state) => {
                let reply = system.name(state.request());
                state.advance(reply)
            }
            Lookup::Closing(state) => {
                system.close(state.request());
                state.advance()
            }
            Lookup::Done(outcome) => break outcome,
            Lookup::Opening(_) => unreachable!(),
        };
    };
    assert_eq!(outcome, Outcome::Named { pid: 60, name: "twice.exe".to_string() });
    assert_eq!(system.released, vec![0x100, 0x104]);
    assert!(system.live.is_empty());
}

#[test]
fn a_lookup_that_is_over_asks_for_nothing() {
    let lookup = match Lookup::start(9) {
        Lookup::Opening(state) => state.advance(OpenReply { handle: 0, last_error: 5 }),
        _ => unreachable!(),
    };
    assert_eq!(lookup.request(), None);
}
