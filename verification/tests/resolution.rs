use os_error::resolution::{Reply, Request, Resolution};
use os_error::windows::{from_raw_os_error, located, NT_MODULE_NAME};
use os_error::{OsError, Platform};

/// A stand-in for the operating system: message tables by module handle, the system's table,
/// the messages of `strerror_r`, and the error codes that it reports.
struct Host {
    last_error: i32,
    lookup_failure: i32,
    strerror: Vec<(i32, &'static str)>,
    nt_module: Option<usize>,
    modules: Vec<(usize, u32, &'static str)>,
    system: Vec<(u32, &'static str)>,
}

impl Host {
    fn empty() -> Host {
        Host {
            last_error: 0,
            lookup_failure: 317,
            strerror: Vec::new(),
            nt_module: None,
            modules: Vec::new(),
            system: Vec::new(),
        }
    }

    fn answer(&self, request: Request, lookups_done: usize) -> Reply {
        match request {
            Request::LastError => {
                if lookups_done == 0 {
                    Reply::LastError(self.last_error)
                } else {
                    Reply::LastError(self.lookup_failure)
                }
            }
            Request::Strerror { code, capacity } => {
                let mut buffer = vec![0u8; capacity];
                match self.strerror.iter().find(|entry| entry.0 == code) {
                    Some(entry) => {
                        buffer[..entry.1.len()].copy_from_slice(entry.1.as_bytes());
                        Reply::Strerror { status: 0, buffer }
                    }
                    None => Reply::Strerror { status: 22, buffer },
                }
            }
            Request::ModuleHandle { name } => {
                assert_eq!(name, "NTDLL.DLL");
                Reply::ModuleHandle(self.nt_module)
            }
            Request::FormatMessage { flags, module, id, capacity } => {
                assert_eq!(capacity, 2048);
                let found = match module {
                    Some(handle) => {
                        assert_eq!(flags, 0xA00);
                        self.modules
                            .iter()
                            .find(|entry| entry.0 == handle && entry.1 == id)
                            .map(|entry| entry.2)
                    }
                    None => {
                        assert_eq!(flags, 0x1200);
                        self.system.iter().find(|entry| entry.0 == id).map(|entry| entry.1)
                    }
                };
                Reply::FormatMessage(found.unwrap_or("").encode_utf16().collect())
            }
        }
    }

    /// Performs every lookup that `resolution` asks for, and returns what it ends in together
    /// with the requests in the order in which they came.
    fn resolve(&self, mut resolution: Resolution) -> (OsError, Vec<Request>) {
        let mut asked: Vec<Request> = Vec::new();
        let mut lookups_done: usize = 0;
        while let Some(request) = resolution.request() {
            assert!(asked.len() < 64, "the resolution does not end");
            let reply = self.answer(request, lookups_done);
            if matches!(request, Request::FormatMessage { .. } | Request::Strerror { .. }) {
                lookups_done += 1;
            }
            asked.push(request);
            resolution = resolution.advance(reply);
        }
        (resolution.into_error().unwrap(), asked)
    }
}

fn module_lookup(handle: usize, id: u32) -> Request {
    Request::FormatMessage { flags: 0xA00, module: Some(handle), id, capacity: 2048 }
}

fn system_lookup(id: u32) -> Request {
    Request::FormatMessage { flags: 0x1200, module: None, id, capacity: 2048 }
}

fn nt_module() -> Request {
    Request::ModuleHandle { name: NT_MODULE_NAME }
}

const PLAIN_WINDOWS: Platform = Platform::Windows { nt_messages: false };

const NT_WINDOWS: Platform = Platform::Windows { nt_messages: true };

#[test]
fn the_stored_code_matches_the_input() {
    let host = Host::empty();
    let codes: [i32; 7] = [0, 1, -1, 2, 999999, i32::MIN, i32::MAX];
    for code in codes {
        let (error, _) = host.resolve(OsError::from_raw_os_error(code, Platform::Unix));
        assert_eq!(error.error_code(), code);
        let (error, _) = host.resolve(OsError::from_raw_os_error(code, PLAIN_WINDOWS));
        assert_eq!(error.error_code(), code);
        let (error, _) = host.resolve(OsError::from_raw_os_error(code, NT_WINDOWS));
        assert_eq!(error.error_code(), code);
        let (error, _) = host.resolve(OsError::with_windows_modules(code, &[0x1000, 0x2000]));
        assert_eq!(error.error_code(), code);
    }
}

#[test]
fn the_stored_code_matches_the_input_when_a_message_is_found() {
    let mut host = Host::empty();
    host.system.push((5, "Access is denied.\r\n"));
    host.strerror.push((5, "Input/output error"));
    let (error, _) = host.resolve(OsError::from_raw_os_error(5, PLAIN_WINDOWS));
    assert_eq!(error.error_code(), 5);
    let (error, _) = host.resolve(OsError::from_raw_os_error(5, Platform::Unix));
    assert_eq!(error.error_code(), 5);
}

#[test]
fn the_description_is_not_empty_at_the_bounds_of_the_code() {
    let host = Host::empty();
    let codes: [i32; 5] = [i32::MIN, -1, 0, 1, i32::MAX];
    for code in codes {
        let (error, _) = host.resolve(OsError::from_raw_os_error(code, Platform::Unix));
        assert!(!error.as_str().is_empty());
        let (error, _) = host.resolve(OsError::from_raw_os_error(code, PLAIN_WINDOWS));
        assert!(!error.as_str().is_empty());
        let (error, _) = host.resolve(OsError::with_windows_modules(code, &[7]));
        assert!(!error.as_str().is_empty());
    }
}

#[test]
fn only_the_second_module_knows_the_code() {
    let mut host = Host::empty();
    host.modules.push((0x2000, 1359, "An internal error occurred.\r\n"));
    let (error, asked) = host.resolve(OsError::with_windows_modules(1359, &[0x1000, 0x2000]));
    assert_eq!(error.as_str(), "An internal error occurred.");
    assert_eq!(asked, vec![module_lookup(0x1000, 1359), module_lookup(0x2000, 1359)]);
}

#[test]
fn the_first_match_wins() {
    let mut host = Host::empty();
    host.modules.push((0x1000, 31, "A device attached to the system is not functioning.\r\n"));
    host.modules.push((0x2000, 31, "The driver reported a general failure.\r\n"));
    host.system.push((31, "The system's own words.\r\n"));
    let (error, asked) = host.resolve(OsError::with_windows_modules(31, &[0x1000, 0x2000]));
    assert_eq!(error.as_str(), "A device attached to the system is not functioning.");
    assert_eq!(asked, vec![module_lookup(0x1000, 31)]);
}

#[test]
fn the_order_of_the_modules_decides() {
    let mut host = Host::empty();
    host.modules.push((0x1000, 31, "first\r\n"));
    host.modules.push((0x2000, 31, "second\r\n"));
    let (error, _) = host.resolve(OsError::with_windows_modules(31, &[0x2000, 0x1000]));
    assert_eq!(error.as_str(), "second");
}

#[test]
fn a_module_is_asked_for_this_code_only() {
    let mut host = Host::empty();
    host.modules.push((0x1000, 30, "another code's message\r\n"));
    host.system.push((31, "from the system\r\n"));
    let (error, asked) = host.resolve(OsError::with_windows_modules(31, &[0x1000]));
    assert_eq!(error.as_str(), "from the system");
    assert_eq!(asked, vec![module_lookup(0x1000, 31), system_lookup(31)]);
}

#[test]
fn the_system_is_asked_after_the_last_module() {
    let mut host = Host::empty();
    host.system.push((6, "The handle is invalid.\r\n"));
    let (error, asked) = host.resolve(OsError::with_windows_modules(6, &[3, 1, 2]));
    assert_eq!(error.as_str(), "The handle is invalid.");
    assert_eq!(
        asked,
        vec![module_lookup(3, 6), module_lookup(1, 6), module_lookup(2, 6), system_lookup(6)]
    );
}

#[test]
fn resolving_twice_gives_the_same_description() {
    let mut host = Host::empty();
    host.modules.push((0x2000, 1359, "An internal error occurred.\r\n"));
    host.system.push((2, "The system cannot find the file specified.\r\n"));
    for code in [2, 1359, 999999] {
        let (first, asked_first) =
            host.resolve(OsError::with_windows_modules(code, &[0x1000, 0x2000]));
        let (second, asked_second) =
            host.resolve(OsError::with_windows_modules(code, &[0x1000, 0x2000]));
        assert_eq!(first.as_str(), second.as_str());
        assert_eq!(first.error_code(), second.error_code());
        assert_eq!(asked_first, asked_second);
    }
}

#[test]
fn nothing_found_anywhere_names_the_code_and_the_failure() {
    let mut host = Host::empty();
    host.lookup_failure = 1815;
    let (error, asked) = host.resolve(OsError::with_windows_modules(4242, &[0x1000, 0x2000]));
    assert_eq!(error.as_str(), "OS Error 4242 (FormatMessageW() returned error 1815)");
    assert!(error.as_str().contains("4242"));
    assert!(error.as_str().contains("1815"));
    assert_eq!(
        asked,
        vec![
            module_lookup(0x1000, 4242),
            module_lookup(0x2000, 4242),
            system_lookup(4242),
            Request::LastError,
        ]
    );
}

#[test]
fn file_not_found_resolves_through_the_system_table() {
    let mut host = Host::empty();
    host.system.push((2, "The system cannot find the file specified.\r\n"));
    let (error, asked) = host.resolve(OsError::from_raw_os_error(2, PLAIN_WINDOWS));
    assert_eq!(error.error_code(), 2);
    assert_eq!(error.as_str(), "The system cannot find the file specified.");
    assert!(!error.as_str().is_empty());
    assert!(!error.as_str().starts_with("OS Error "));
    assert_eq!(asked, vec![system_lookup(2)]);
}

#[test]
fn an_unused_code_resolves_to_the_fallback_pattern() {
    let host = Host::empty();
    let (error, asked) = host.resolve(OsError::from_raw_os_error(999999, PLAIN_WINDOWS));
    assert_eq!(error.error_code(), 999999);
    assert_eq!(error.as_str(), "OS Error 999999 (FormatMessageW() returned error 317)");
    assert_eq!(asked, vec![system_lookup(999999), Request::LastError]);
}

#[test]
fn the_free_entry_point_goes_to_the_system_at_once() {
    let mut host = Host::empty();
    host.nt_module = Some(0x7FF0);
    host.modules.push((0x7FF0, 0xC000_0005, "as the NT table has it\r\n"));
    host.system.push((0xD000_0005, "as the system has it\r\n"));
    let (error, asked) = host.resolve(from_raw_os_error(-805306363, false));
    assert_eq!(error.error_code(), -805306363);
    assert_eq!(error.as_str(), "as the system has it");
    assert_eq!(asked, vec![system_lookup(0xD000_0005)]);
}

#[test]
fn the_nt_module_is_asked_with_the_facility_bit_flipped() {
    let mut host = Host::empty();
    host.nt_module = Some(0x7FF0);
    host.modules.push((0x7FF0, 0xC000_0005, "The instruction referenced memory at 0x%p.\r\n"));
    host.system.push((0xD000_0005, "as the system has it\r\n"));
    let (error, asked) = host.resolve(from_raw_os_error(-805306363, true));
    assert_eq!(error.error_code(), -805306363);
    assert_eq!(error.as_str(), "The instruction referenced memory at 0x%p.");
    assert_eq!(asked, vec![nt_module(), module_lookup(0x7FF0, 0xC000_0005)]);
}

#[test]
fn the_facility_bit_is_set_where_it_was_clear() {
    let mut host = Host::empty();
    host.nt_module = Some(0x7FF0);
    host.modules.push((0x7FF0, 0x1000_0002, "known to the NT table\r\n"));
    let (error, asked) = host.resolve(from_raw_os_error(2, true));
    assert_eq!(error.error_code(), 2);
    assert_eq!(error.as_str(), "known to the NT table");
    assert_eq!(asked, vec![nt_module(), module_lookup(0x7FF0, 0x1000_0002)]);
}

#[test]
fn the_system_is_asked_for_the_code_itself_after_the_nt_module() {
    let mut host = Host::empty();
    host.nt_module = Some(0x7FF0);
    host.system.push((2, "The system cannot find the file specified.\r\n"));
    let (error, asked) = host.resolve(OsError::from_raw_os_error(2, NT_WINDOWS));
    assert_eq!(error.as_str(), "The system cannot find the file specified.");
    assert_eq!(asked, vec![nt_module(), module_lookup(0x7FF0, 0x1000_0002), system_lookup(2)]);
}

#[test]
fn the_fallback_after_the_nt_module_names_the_code_itself() {
    let mut host = Host::empty();
    host.nt_module = Some(0x7FF0);
    let (error, asked) = host.resolve(from_raw_os_error(-805306363, true));
    assert_eq!(error.as_str(), "OS Error -805306363 (FormatMessageW() returned error 317)");
    assert_eq!(
        asked,
        vec![
            nt_module(),
            module_lookup(0x7FF0, 0xC000_0005),
            system_lookup(0xD000_0005),
            Request::LastError,
        ]
    );
}

#[test]
fn without_the_nt_module_the_code_is_looked_up_as_it_is() {
    let mut host = Host::empty();
    host.nt_module = None;
    host.system.push((0xD000_0005, "as the system has it\r\n"));
    let (error, asked) = host.resolve(from_raw_os_error(-805306363, true));
    assert_eq!(error.error_code(), -805306363);
    assert_eq!(error.as_str(), "as the system has it");
    assert_eq!(asked, vec![nt_module(), system_lookup(0xD000_0005)]);
}

#[test]
fn the_name_of_the_nt_module() {
    assert_eq!(NT_MODULE_NAME, "NTDLL.DLL");
    assert_eq!(from_raw_os_error(1, true).request(), Some(Request::ModuleHandle { name: "NTDLL.DLL" }));
}

#[test]
fn the_search_that_follows_the_nt_module() {
    assert_eq!(located(2, Some(0x7FF0)).request(), Some(module_lookup(0x7FF0, 0x1000_0002)));
    assert_eq!(located(2, None).request(), Some(system_lookup(2)));
    assert_eq!(located(-1, Some(1)).request(), Some(module_lookup(1, 0xEFFF_FFFF)));
}

#[test]
fn a_posix_code_is_resolved_by_one_lookup() {
    let mut host = Host::empty();
    host.strerror.push((2, "No such file or directory"));
    let (error, asked) = host.resolve(OsError::from_raw_os_error(2, Platform::Unix));
    assert_eq!(error.error_code(), 2);
    assert_eq!(error.as_str(), "No such file or directory");
    assert_eq!(asked, vec![Request::Strerror { code: 2, capacity: 128 }]);
}

#[test]
fn a_posix_lookup_that_fails_gives_the_fallback() {
    let host = Host::empty();
    let (error, asked) = host.resolve(OsError::from_raw_os_error(-3, Platform::Unix));
    assert_eq!(error.as_str(), "OS Error -3 (strerror_r() failed)");
    assert_eq!(asked, vec![Request::Strerror { code: -3, capacity: 128 }]);
}

#[test]
fn the_last_error_is_read_first() {
    let mut host = Host::empty();
    host.last_error = 13;
    host.strerror.push((13, "Permission denied"));
    let (error, asked) = host.resolve(OsError::from_last_os_error(Platform::Unix));
    assert_eq!(error.error_code(), 13);
    assert_eq!(error.as_str(), "Permission denied");
    assert_eq!(asked, vec![Request::LastError, Request::Strerror { code: 13, capacity: 128 }]);
}

#[test]
fn the_last_error_is_resolved_like_a_raw_code() {
    let mut host = Host::empty();
    host.last_error = 5;
    host.system.push((5, "Access is denied.\r\n"));
    let (last, asked) = host.resolve(OsError::from_last_os_error(PLAIN_WINDOWS));
    let (raw, _) = host.resolve(OsError::from_raw_os_error(5, PLAIN_WINDOWS));
    assert_eq!(last.error_code(), raw.error_code());
    assert_eq!(last.as_str(), raw.as_str());
    assert_eq!(asked, vec![Request::LastError, system_lookup(5)]);
}

#[test]
fn the_last_error_is_read_before_the_nt_module_is_looked_for() {
    let mut host = Host::empty();
    host.last_error = 2;
    host.nt_module = Some(9);
    let (error, asked) = host.resolve(OsError::from_last_os_error(NT_WINDOWS));
    assert_eq!(error.as_str(), "OS Error 2 (FormatMessageW() returned error 317)");
    assert_eq!(
        asked,
        vec![
            Request::LastError,
            nt_module(),
            module_lookup(9, 0x1000_0002),
            system_lookup(2),
            Request::LastError,
        ]
    );
}

#[test]
fn an_ill_formed_module_message_still_ends_the_search() {
    let resolution = OsError::with_windows_modules(8, &[1, 2]);
    let resolution = resolution.advance(Reply::FormatMessage(vec![0xD800, 0x0D, 0x0A]));
    assert_eq!(resolution.request(), None);
    let error = resolution.into_error().unwrap();
    assert_eq!(error.as_str(), "OS Error 8 (FormatMessageW() returned invalid wide string)");
}

#[test]
fn any_length_but_zero_ends_the_search() {
    let resolution = OsError::with_windows_modules(8, &[1, 2]);
    let resolution = resolution.advance(Reply::FormatMessage(vec![0x0A]));
    assert_eq!(resolution.request(), None);
    let error = resolution.into_error().unwrap();
    assert_eq!(error.error_code(), 8);
    assert_eq!(error.as_str(), "");
}

#[test]
fn a_reply_of_another_kind_changes_nothing() {
    let resolution = OsError::with_windows_modules(8, &[1]);
    let resolution = resolution.advance(Reply::LastError(5));
    assert_eq!(resolution.request(), Some(module_lookup(1, 8)));
    let resolution = resolution.advance(Reply::Strerror { status: 0, buffer: vec![b'x', 0] });
    assert_eq!(resolution.request(), Some(module_lookup(1, 8)));

    let resolution = OsError::from_raw_os_error(8, Platform::Unix);
    let resolution = resolution.advance(Reply::FormatMessage(vec![0x41]));
    assert_eq!(resolution.request(), Some(Request::Strerror { code: 8, capacity: 128 }));

    let resolution = OsError::from_last_os_error(Platform::Unix);
    let resolution = resolution.advance(Reply::FormatMessage(vec![0x41]));
    assert_eq!(resolution.request(), Some(Request::LastError));

    let resolution = from_raw_os_error(8, true);
    let resolution = resolution.advance(Reply::FormatMessage(vec![0x41]));
    assert_eq!(resolution.request(), Some(nt_module()));
    let resolution = resolution.advance(Reply::LastError(3));
    assert_eq!(resolution.request(), Some(nt_module()));
}

#[test]
fn an_ended_resolution_stays_as_it_is() {
    let resolution = OsError::from_raw_os_error(2, PLAIN_WINDOWS);
    let resolution = resolution.advance(Reply::FormatMessage("found\r\n".encode_utf16().collect()));
    let resolution = resolution.advance(Reply::FormatMessage("other\r\n".encode_utf16().collect()));
    let resolution = resolution.advance(Reply::LastError(1));
    let resolution = resolution.advance(Reply::Strerror { status: 1, buffer: Vec::new() });
    let resolution = resolution.advance(Reply::ModuleHandle(Some(4)));
    assert_eq!(resolution.request(), None);
    let error = resolution.into_error().unwrap();
    assert_eq!(error.error_code(), 2);
    assert_eq!(error.as_str(), "found");
}

#[test]
fn a_resolution_in_progress_holds_no_error() {
    assert!(OsError::from_raw_os_error(2, PLAIN_WINDOWS).into_error().is_none());
    assert!(OsError::from_raw_os_error(2, Platform::Unix).into_error().is_none());
    assert!(OsError::from_last_os_error(Platform::Unix).into_error().is_none());
    let awaiting_failure =
        OsError::from_raw_os_error(2, PLAIN_WINDOWS).advance(Reply::FormatMessage(Vec::new()));
    assert_eq!(awaiting_failure.request(), Some(Request::LastError));
    assert!(awaiting_failure.into_error().is_none());
}

#[test]
fn the_handles_are_handed_on_as_they_are() {
    let handles: [usize; 3] = [usize::MAX, 0, 0x7FFE_0000];
    let mut resolution = OsError::with_windows_modules(1, &handles);
    for handle in handles {
        assert_eq!(resolution.request(), Some(module_lookup(handle, 1)));
        resolution = resolution.advance(Reply::FormatMessage(Vec::new()));
    }
    assert_eq!(resolution.request(), Some(system_lookup(1)));
}
