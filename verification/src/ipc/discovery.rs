//! Finding the daemon's socket: the directory that holds it, the names it may
//! have, and the order in which they are tried.

use crate::ipc::client::{ClientView, IpcClient};
use crate::ipc::error::ClientError;
use crate::util::text::{decimal, decimal_text, optional_view, same_text, texts_view};
use vstd::prelude::*;
use vstd::string::*;

verus! {

/// The number of sockets that are tried.
pub const CANDIDATES: usize = 10;

/// What every socket's name starts with.
pub const SOCKET_PREFIX: &'static str = "discord-ipc";

/// The directory that is taken where the environment names none.
pub const FALLBACK_DIRECTORY: &'static str = "/tmp";

/// The variables that may name the directory of the sockets, the one that
/// decides first.
pub open spec fn directory_variables() -> Seq<Seq<char>> {
    seq!["XDG_RUNTIME_DIR"@, "TMPDIR"@, "TMP"@, "TEMP"@]
}

/// An environment: the variables that are set, each with its value.
pub open spec fn environment_view(variables: Seq<(String, String)>) -> Seq<(Seq<char>, Seq<char>)> {
    variables.map_values(|v: (String, String)| (v.0@, v.1@))
}

/// The value of the variable `name`: that of the first entry of that name.
pub open spec fn lookup(variables: Seq<(Seq<char>, Seq<char>)>, name: Seq<char>) -> Option<
    Seq<char>,
>
    decreases variables.len(),
{
    if variables.len() == 0 {
        None
    } else if variables[0].0 == name {
        Some(variables[0].1)
    } else {
        lookup(variables.drop_first(), name)
    }
}

/// The value of the first of `names` that is set.
pub open spec fn first_set(variables: Seq<(Seq<char>, Seq<char>)>, names: Seq<Seq<char>>) -> Option<
    Seq<char>,
>
    decreases names.len(),
{
    if names.len() == 0 {
        None
    } else {
        match lookup(variables, names[0]) {
            Some(value) => Some(value),
            None => first_set(variables, names.drop_first()),
        }
    }
}

/// The directory of the daemon's sockets: the value of the first of the
/// directory variables that is set, and the fallback where none is.
pub open spec fn directory_of(variables: Seq<(Seq<char>, Seq<char>)>) -> Seq<char> {
    match first_set(variables, directory_variables()) {
        Some(directory) => directory,
        None => FALLBACK_DIRECTORY@,
    }
}

/// The path of the socket with the given index in `directory`.
pub open spec fn socket_path_of(directory: Seq<char>, index: nat) -> Seq<char> {
    directory + "/"@ + SOCKET_PREFIX@ + "-"@ + decimal(index)
}

/// The paths that are tried in `directory`, in the order of trying.
pub open spec fn socket_paths_of(directory: Seq<char>) -> Seq<Seq<char>> {
    Seq::new(CANDIDATES as nat, |i: int| socket_path_of(directory, i as nat))
}

/// The names of the variables that may name the directory of the sockets, the
/// one that decides first.
pub fn directory_variable_names() -> (names: Vec<&'static str>)
    ensures
        names@.map_values(|name: &'static str| name@) == directory_variables(),
{
    let mut names: Vec<&'static str> = Vec::with_capacity(4);
    names.push("XDG_RUNTIME_DIR");
    names.push("TMPDIR");
    names.push("TMP");
    names.push("TEMP");
    names
}

/// The value of the variable `name` in `variables`.
pub fn variable<'a>(variables: &'a Vec<(String, String)>, name: &str) -> (value: Option<&'a String>)
    ensures
        match value {
            Some(v) => lookup(environment_view(variables@), name@) == Some(v@),
            None => lookup(environment_view(variables@), name@) is None,
        },
{
    let ghost all = environment_view(variables@);
    let mut i: usize = 0;
    assert(all.skip(0) == all);
    while i < variables.len()
        invariant
            all == environment_view(variables@),
            i <= variables@.len(),
            lookup(all, name@) == lookup(all.skip(i as int), name@),
        decreases variables.len() - i,
    {
        assert(all.skip(i as int).drop_first() == all.skip(i + 1));
        if same_text(variables[i].0.as_str(), name) {
            return Some(&variables[i].1);
        }
        i += 1;
    }
    None
}

/// The directory of the daemon's sockets in the environment `variables`: the
/// value of `XDG_RUNTIME_DIR`, else that of `TMPDIR`, of `TMP`, of `TEMP`, and
/// `/tmp` where none of them is set.
pub fn socket_directory(variables: &Vec<(String, String)>) -> (directory: String)
    ensures
        directory@ == directory_of(environment_view(variables@)),
{
    let names = directory_variable_names();
    let ghost wanted = directory_variables();
    let ghost all = environment_view(variables@);
    let mut k: usize = 0;
    assert(wanted.skip(0) == wanted);
    while k < names.len()
        invariant
            wanted == directory_variables(),
            wanted == names@.map_values(|name: &'static str| name@),
            all == environment_view(variables@),
            k <= names@.len(),
            first_set(all, wanted) == first_set(all, wanted.skip(k as int)),
        decreases names.len() - k,
    {
        assert(wanted.skip(k as int).drop_first() == wanted.skip(k + 1));
        match variable(variables, names[k]) {
            Some(value) => {
                return value.clone();
            },
            None => {},
        }
        k += 1;
    }
    FALLBACK_DIRECTORY.to_owned()
}

/// The path of the socket with the given index in `directory`.
pub fn socket_path(directory: &str, index: usize) -> (path: String)
    ensures
        path@ == socket_path_of(directory@, index as nat),
{
    let mut path = directory.to_owned();
    path.append("/");
    path.append(SOCKET_PREFIX);
    path.append("-");
    path.append(decimal_text(index as u64).as_str());
    path
}

/// The paths that are tried in `directory`, in the order of trying: the
/// sockets with the indices from 0 up to 9.
pub fn socket_paths(directory: &str) -> (paths: Vec<String>)
    ensures
        texts_view(paths@) == socket_paths_of(directory@),
{
    let mut paths: Vec<String> = Vec::with_capacity(CANDIDATES);
    let mut index: usize = 0;
    while index < CANDIDATES
        invariant
            index <= CANDIDATES,
            paths@.len() == index,
            forall|i: int| 0 <= i < index ==> paths@[i]@ == socket_path_of(directory@, i as nat),
        decreases CANDIDATES - index,
    {
        paths.push(socket_path(directory, index));
        index += 1;
    }
    paths
}

/// How an attempt to open one socket ended.
#[derive(Debug, PartialEq, Eq)]
pub enum Attempt<T> {
    /// The socket was opened: this is the transport.
    Connected(T),
    /// No socket of that name exists.
    NotFound,
    /// The attempt failed for any other reason.
    Failed,
}

/// Where the search for the daemon's socket stands.
#[derive(Debug, PartialEq, Eq)]
pub enum Discovery<T> {
    /// The socket with this index is to be tried next.
    Try(usize),
    /// The socket with this index was opened, which gave this transport: the
    /// search is over.
    Found(usize, T),
    /// The attempt on the socket with this index failed: the search is over.
    Failed(usize),
    /// None of the sockets exists: the search is over.
    Exhausted,
}

/// Where the search stands after an attempt on the socket that `state` asked
/// for has ended as `attempt` says.
///
/// A socket that was opened ends the search, and so does a failure. A socket
/// that does not exist passes the search on to the next one, while there is
/// one. A search that is over stays as it is.
pub open spec fn step<T>(state: Discovery<T>, attempt: Attempt<T>) -> Discovery<T> {
    match state {
        Discovery::Try(index) => match attempt {
            Attempt::Connected(transport) => Discovery::Found(index, transport),
            Attempt::Failed => Discovery::Failed(index),
            Attempt::NotFound => if index + 1 < CANDIDATES {
                Discovery::Try((index + 1) as usize)
            } else {
                Discovery::Exhausted
            },
        },
        _ => state,
    }
}

/// Where the search stands after attempts that ended as `attempts` says, in
/// this order, each on the socket that the search asked for.
pub open spec fn after<T>(attempts: Seq<Attempt<T>>) -> Discovery<T>
    decreases attempts.len(),
{
    if attempts.len() == 0 {
        Discovery::Try(0)
    } else {
        step(after(attempts.drop_last()), attempts.last())
    }
}

/// What connecting comes to for the client `client_id`, once the search is
/// over: the client that owns the transport of the socket that was opened,
/// and has announced nothing; or the error. There is nothing yet while a
/// socket is still to be tried.
pub open spec fn connected<T>(state: Discovery<T>, client_id: u64) -> Option<
    Result<ClientView<T>, ClientError>,
> {
    match state {
        Discovery::Try(_) => None,
        Discovery::Found(_, transport) => Some(
            Ok(
                ClientView {
                    client_id: client_id,
                    transport: Some(transport),
                    last_activity: None,
                },
            ),
        ),
        Discovery::Failed(_) => Some(Err(ClientError::Transport)),
        Discovery::Exhausted => Some(Err(ClientError::DiscoveryExhausted)),
    }
}

/// What a client that connecting gave holds, or the error.
pub open spec fn connect_view<T>(outcome: Option<Result<IpcClient<T>, ClientError>>) -> Option<
    Result<ClientView<T>, ClientError>,
> {
    match outcome {
        Some(Ok(client)) => Some(Ok(client@)),
        Some(Err(error)) => Some(Err(error)),
        None => None,
    }
}

impl<T> Discovery<T> {
    /// Whether the socket that the search names is one of the candidates.
    pub open spec fn in_range(self) -> bool {
        match self {
            Discovery::Try(index) => index < CANDIDATES,
            Discovery::Found(index, _) => index < CANDIDATES,
            Discovery::Failed(index) => index < CANDIDATES,
            Discovery::Exhausted => true,
        }
    }

    /// Whether the search is over.
    pub open spec fn is_over(self) -> bool {
        !(self is Try)
    }

    /// The search before any attempt: the first socket is to be tried.
    pub fn start() -> (state: Discovery<T>)
        ensures
            state == Discovery::<T>::Try(0),
            state.in_range(),
    {
        Discovery::Try(0)
    }

    /// The index of the socket that is to be tried next, while the search is
    /// not over.
    pub fn pending(&self) -> (index: Option<usize>)
        ensures
            match *self {
                Discovery::Try(i) => index == Some(i),
                _ => index is None,
            },
    {
        match self {
            Discovery::Try(index) => Some(*index),
            _ => None,
        }
    }

    /// The path in `directory` of the socket that is to be tried next, while
    /// the search is not over.
    pub fn socket(&self, directory: &str) -> (path: Option<String>)
        ensures
            match *self {
                Discovery::Try(i) => optional_view(path) == Some(
                    socket_path_of(directory@, i as nat),
                ),
                _ => path is None,
            },
    {
        match self {
            Discovery::Try(index) => Some(socket_path(directory, *index)),
            _ => None,
        }
    }

    /// Where the search stands after an attempt on the socket that it asked
    /// for has ended as `attempt` says.
    pub fn next(self, attempt: Attempt<T>) -> (state: Discovery<T>)
        ensures
            state == step(self, attempt),
            self.in_range() ==> state.in_range(),
    {
        match self {
            Discovery::Try(index) => match attempt {
                Attempt::Connected(transport) => Discovery::Found(index, transport),
                Attempt::Failed => Discovery::Failed(index),
                Attempt::NotFound => if index < CANDIDATES - 1 {
                    Discovery::Try(index + 1)
                } else {
                    Discovery::Exhausted
                },
            },
            over => over,
        }
    }

    /// What connecting comes to for the client `client_id`: the client that
    /// owns the transport of the socket that was opened, or the error; and
    /// nothing while a socket is still to be tried.
    pub fn connect(self, client_id: u64) -> (outcome: Option<Result<IpcClient<T>, ClientError>>)
        ensures
            connect_view(outcome) == connected(self, client_id),
    {
        match self {
            Discovery::Try(_) => None,
            Discovery::Found(_, transport) => Some(Ok(IpcClient::new(client_id, transport))),
            Discovery::Failed(_) => Some(Err(ClientError::Transport)),
            Discovery::Exhausted => Some(Err(ClientError::DiscoveryExhausted)),
        }
    }
}

/// A search that is over after the first `n` attempts is where it was then,
/// whatever the later attempts would have come to: they are not made.
pub proof fn lemma_over_stays<T>(attempts: Seq<Attempt<T>>, n: int)
    requires
        0 <= n <= attempts.len(),
        after(attempts.take(n)).is_over(),
    ensures
        after(attempts) == after(attempts.take(n)),
    decreases attempts.len() - n,
{
    if n == attempts.len() {
        assert(attempts.take(n) == attempts);
    } else {
        let shorter = attempts.drop_last();
        assert(shorter.take(n) == attempts.take(n));
        lemma_over_stays(shorter, n);
    }
}

/// A search never names a socket that is no candidate.
pub proof fn lemma_search_stays_in_range<T>(attempts: Seq<Attempt<T>>)
    ensures
        after(attempts).in_range(),
    decreases attempts.len(),
{
    if attempts.len() > 0 {
        lemma_search_stays_in_range(attempts.drop_last());
    }
}

/// While no socket exists, the sockets are tried in order: after `n` attempts
/// that found none, with some left, the socket with index `n` is next.
pub proof fn lemma_missing_sockets_are_skipped<T>(attempts: Seq<Attempt<T>>)
    requires
        attempts.len() < CANDIDATES,
        forall|j: int| 0 <= j < attempts.len() ==> attempts[j] is NotFound,
    ensures
        after(attempts) == Discovery::<T>::Try(attempts.len() as usize),
    decreases attempts.len(),
{
    if attempts.len() > 0 {
        lemma_missing_sockets_are_skipped(attempts.drop_last());
    }
}

/// The first socket that exists decides. Where the sockets before the one
/// with index `k` do not exist and that one is opened, the search ends with
/// it and its transport; where the attempt on it fails, the search ends with
/// that failure. Either way no socket after it is tried: what `attempts` says
/// of them does not matter.
pub proof fn lemma_first_socket_decides<T>(attempts: Seq<Attempt<T>>, k: int)
    requires
        0 <= k < attempts.len(),
        k < CANDIDATES,
        forall|j: int| 0 <= j < k ==> attempts[j] is NotFound,
        !(attempts[k] is NotFound),
    ensures
        after(attempts) == match attempts[k] {
            Attempt::Connected(transport) => Discovery::Found(k as usize, transport),
            _ => Discovery::Failed(k as usize),
        },
{
    lemma_missing_sockets_are_skipped(attempts.take(k));
    assert(attempts.take(k + 1).drop_last() == attempts.take(k));
    lemma_over_stays(attempts, k + 1);
}

/// Where none of the sockets exists, the search ends exhausted, and
/// connecting fails for that reason.
pub proof fn lemma_exhaustion<T>(attempts: Seq<Attempt<T>>, client_id: u64)
    requires
        attempts.len() >= CANDIDATES,
        forall|j: int| 0 <= j < CANDIDATES ==> attempts[j] is NotFound,
    ensures
        after(attempts) == Discovery::<T>::Exhausted,
        connected(after(attempts), client_id) == Some(
            Err::<ClientView<T>, ClientError>(ClientError::DiscoveryExhausted),
        ),
{
    let n = CANDIDATES as int;
    lemma_missing_sockets_are_skipped(attempts.take(n - 1));
    assert(attempts.take(n).drop_last() == attempts.take(n - 1));
    lemma_over_stays(attempts, n);
}

/// Where the search stands after attempts that ended as `attempts` says, in
/// this order.
pub fn discover<T>(attempts: Vec<Attempt<T>>) -> (state: Discovery<T>)
    ensures
        state == after(attempts@),
        state.in_range(),
{
    let mut state = Discovery::start();
    let ghost all = attempts@;
    for attempt in it: attempts
        invariant
            it.seq() == all,
            state == after(all.take(it.index() as int)),
            state.in_range(),
    {
        assert(all.take(it.index() + 1).drop_last() == all.take(it.index() as int));
        state = state.next(attempt);
    }
    assert(all.take(all.len() as int) == all);
    state
}

} // verus!
