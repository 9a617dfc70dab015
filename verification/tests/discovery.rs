use cord::ipc::error::ClientError;
use cord::ipc::discovery::{
    directory_variable_names, discover, socket_directory, socket_path, socket_paths, variable,
    Attempt, Discovery, CANDIDATES, FALLBACK_DIRECTORY, SOCKET_PREFIX,
};

fn environment(entries: &[(&str, &str)]) -> Vec<(String, String)> {
    entries.iter().map(|(name, value)| (name.to_string(), value.to_string())).collect()
}

/// How the socket with an index answers: whether it exists, and whether it
/// can be opened.
#[derive(Clone, Copy, PartialEq)]
enum Socket {
    Open,
    Missing,
    Broken,
}

/// What an attempt on each socket comes to. The transport of an open socket
/// is its index.
fn attempts(sockets: &[Socket]) -> Vec<Attempt<usize>> {
    sockets
        .iter()
        .enumerate()
        .map(|(index, socket)| match socket {
            Socket::Open => Attempt::Connected(index),
            Socket::Missing => Attempt::NotFound,
            Socket::Broken => Attempt::Failed,
        })
        .collect()
}

/// Runs the search as a caller would, against sockets that answer as
/// `sockets` says, and returns where it ended with the indices it tried.
fn search(sockets: &[Socket]) -> (Discovery<usize>, Vec<usize>) {
    let mut tried = Vec::new();
    let mut state = Discovery::start();
    while let Some(index) = state.pending() {
        tried.push(index);
        let attempt = attempts(sockets).swap_remove(index);
        state = state.next(attempt);
    }
    (state, tried)
}

#[test]
fn constants_of_the_search() {
    assert_eq!(CANDIDATES, 10);
    assert_eq!(SOCKET_PREFIX, "discord-ipc");
    assert_eq!(FALLBACK_DIRECTORY, "/tmp");
    assert_eq!(directory_variable_names(), vec!["XDG_RUNTIME_DIR", "TMPDIR", "TMP", "TEMP"]);
}

#[test]
fn runtime_directory_comes_first() {
    let env = environment(&[
        ("TEMP", "/d"),
        ("TMP", "/c"),
        ("TMPDIR", "/b"),
        ("XDG_RUNTIME_DIR", "/run/user/1000"),
    ]);
    assert_eq!(socket_directory(&env), "/run/user/1000");
}

#[test]
fn temporary_directories_follow_in_order() {
    let env = environment(&[("TEMP", "/d"), ("TMP", "/c"), ("TMPDIR", "/b")]);
    assert_eq!(socket_directory(&env), "/b");
    let env = environment(&[("TEMP", "/d"), ("TMP", "/c")]);
    assert_eq!(socket_directory(&env), "/c");
    let env = environment(&[("TEMP", "/d")]);
    assert_eq!(socket_directory(&env), "/d");
}

#[test]
fn fallback_directory_without_variables() {
    assert_eq!(socket_directory(&environment(&[])), "/tmp");
    assert_eq!(socket_directory(&environment(&[("HOME", "/home/me"), ("PATH", "/bin")])), "/tmp");
}

#[test]
fn variable_that_is_set_to_nothing_still_decides() {
    let env = environment(&[("XDG_RUNTIME_DIR", ""), ("TMPDIR", "/b")]);
    assert_eq!(socket_directory(&env), "");
}

#[test]
fn variable_names_are_matched_whole() {
    let env = environment(&[("XDG_RUNTIME_DIR2", "/x"), ("tmpdir", "/y"), ("TMP", "/c")]);
    assert_eq!(socket_directory(&env), "/c");
}

#[test]
fn first_entry_of_a_name_is_its_value() {
    let env = environment(&[("TMP", "/first"), ("TMP", "/second")]);
    assert_eq!(variable(&env, "TMP"), Some(&"/first".to_string()));
    assert_eq!(variable(&env, "TEMP"), None);
    assert_eq!(socket_directory(&env), "/first");
}

#[test]
fn socket_path_joins_directory_prefix_and_index() {
    assert_eq!(socket_path("/run/user/1000", 0), "/run/user/1000/discord-ipc-0");
    assert_eq!(socket_path("/tmp", 9), "/tmp/discord-ipc-9");
    assert_eq!(socket_path("", 3), "/discord-ipc-3");
    assert_eq!(socket_path("/tmp", 12), "/tmp/discord-ipc-12");
}

#[test]
fn socket_paths_are_the_ten_candidates_in_order() {
    let paths = socket_paths("/tmp");
    assert_eq!(paths.len(), 10);
    for (index, path) in paths.iter().enumerate() {
        assert_eq!(path, &format!("/tmp/discord-ipc-{}", index));
    }
}

#[test]
fn search_starts_with_the_first_socket() {
    assert_eq!(Discovery::<usize>::start(), Discovery::Try(0));
    assert_eq!(Discovery::<usize>::start().pending(), Some(0));
    assert!(Discovery::<usize>::start().connect(1).is_none());
    assert_eq!(discover(Vec::<Attempt<usize>>::new()), Discovery::Try(0));
}

#[test]
fn only_socket_that_exists_is_found_and_none_after_it_is_tried() {
    for k in 0..10 {
        let mut sockets = [Socket::Missing; 10];
        sockets[k] = Socket::Open;
        let (state, tried) = search(&sockets);
        assert_eq!(state, Discovery::Found(k, k));
        assert_eq!(state.pending(), None);
        assert_eq!(tried, (0..=k).collect::<Vec<usize>>());
        assert_eq!(discover(attempts(&sockets)), Discovery::Found(k, k));
    }
}

#[test]
fn client_owns_the_transport_of_the_socket_that_was_found() {
    let mut sockets = [Socket::Missing; 10];
    sockets[4] = Socket::Open;
    let (state, _) = search(&sockets);
    let client = state.connect(12345).unwrap().unwrap();
    assert_eq!(client.client_id(), 12345);
    assert_eq!(client.transport(), Some(&4));
    assert!(client.is_connected());
    assert_eq!(client.last_activity(), None);
}

#[test]
fn first_socket_that_exists_wins() {
    let mut sockets = [Socket::Missing; 10];
    sockets[3] = Socket::Open;
    sockets[4] = Socket::Broken;
    sockets[7] = Socket::Open;
    let (state, tried) = search(&sockets);
    assert_eq!(state, Discovery::Found(3, 3));
    assert_eq!(tried, vec![0, 1, 2, 3]);
    assert_eq!(discover(attempts(&sockets)), Discovery::Found(3, 3));
}

#[test]
fn failure_stops_the_search_at_once() {
    for k in 0..10 {
        let mut sockets = [Socket::Missing; 10];
        sockets[k] = Socket::Broken;
        if k + 1 < 10 {
            sockets[k + 1] = Socket::Open;
        }
        let (state, tried) = search(&sockets);
        assert_eq!(state, Discovery::Failed(k));
        assert_eq!(tried, (0..=k).collect::<Vec<usize>>());
        assert_eq!(discover(attempts(&sockets)), Discovery::Failed(k));
        assert!(matches!(state.connect(1), Some(Err(ClientError::Transport))));
    }
}

#[test]
fn missing_sockets_are_tried_in_order() {
    let mut state = Discovery::<usize>::start();
    for index in 0..9 {
        assert_eq!(state, Discovery::Try(index));
        state = state.next(Attempt::NotFound);
        assert_eq!(discover(attempts(&vec![Socket::Missing; index + 1])), Discovery::Try(index + 1));
    }
    assert_eq!(state, Discovery::Try(9));
}

#[test]
fn no_socket_at_all_exhausts_the_search() {
    let sockets = [Socket::Missing; 10];
    let (state, tried) = search(&sockets);
    assert_eq!(state, Discovery::Exhausted);
    assert_eq!(tried, (0..10).collect::<Vec<usize>>());
    assert_eq!(discover(attempts(&sockets)), Discovery::Exhausted);
    assert!(matches!(state.connect(1), Some(Err(ClientError::DiscoveryExhausted))));
}

#[test]
fn search_that_is_over_stays_over() {
    for kind in [Socket::Open, Socket::Missing, Socket::Broken] {
        let attempt = || attempts(&[kind]).swap_remove(0);
        assert_eq!(Discovery::Found(2, 9).next(attempt()), Discovery::Found(2, 9));
        assert_eq!(Discovery::Failed(5).next(attempt()), Discovery::Failed(5));
        assert_eq!(Discovery::Exhausted.next(attempt()), Discovery::Exhausted);
    }
    let mut sockets = vec![Socket::Missing; 10];
    sockets.push(Socket::Open);
    assert_eq!(discover(attempts(&sockets)), Discovery::Exhausted);
}

#[test]
fn index_past_the_last_socket_is_not_followed() {
    assert_eq!(Discovery::<usize>::Try(9).next(Attempt::NotFound), Discovery::Exhausted);
    assert_eq!(Discovery::<usize>::Try(usize::MAX).next(Attempt::NotFound), Discovery::Exhausted);
    assert_eq!(Discovery::Try(usize::MAX).next(Attempt::Connected(1)), Discovery::Found(usize::MAX, 1));
}

#[test]
fn search_names_the_path_that_is_tried_next() {
    let mut state = Discovery::<usize>::start();
    assert_eq!(state.socket("/run/user/1000"), Some("/run/user/1000/discord-ipc-0".to_string()));
    state = state.next(Attempt::NotFound).next(Attempt::NotFound);
    assert_eq!(state.socket("/tmp"), Some("/tmp/discord-ipc-2".to_string()));
    state = state.next(Attempt::Connected(5));
    assert_eq!(state.socket("/tmp"), None);
    assert_eq!(Discovery::<usize>::Failed(1).socket("/tmp"), None);
    assert_eq!(Discovery::<usize>::Exhausted.socket("/tmp"), None);
}
