//! Sessions run by an external RDP client program: the command line that
//! launches the client for a connection, and the table of launched clients.

use crate::db::{find_connection, ConnectionProfile};
use crate::registry::{ids_below, SessionRegistry};
use crate::text::{address, address_text, denotes_integer, lemma_address_text_parts};
use vstd::prelude::*;

verus! {

/// What is needed to launch a client for one saved connection.
#[derive(Debug)]
pub struct RdpConfig {
    pub connection_id: i64,
    pub hostname: String,
    pub port: i32,
    pub username: String,
    pub password: String,
}

impl Clone for RdpConfig {
    fn clone(&self) -> (r: Self)
        ensures
            r == *self,
    {
        RdpConfig {
            connection_id: self.connection_id,
            hostname: self.hostname.clone(),
            port: self.port,
            username: self.username.clone(),
            password: self.password.clone(),
        }
    }
}

/// What the user is shown of one running session.
#[derive(Debug)]
pub struct SessionInfo {
    pub session_id: u32,
    pub connection_id: i64,
    pub hostname: String,
    pub pid: u32,
    pub status: String,
}

impl Clone for SessionInfo {
    fn clone(&self) -> (r: Self)
        ensures
            r == *self,
    {
        SessionInfo {
            session_id: self.session_id,
            connection_id: self.connection_id,
            hostname: self.hostname.clone(),
            pid: self.pid,
            status: self.status.clone(),
        }
    }
}

/// The operating system family, which decides the client program.
#[derive(Clone, Copy, Debug, PartialEq, Eq, Structural)]
pub enum ClientPlatform {
    Windows,
    MacOs,
    Other,
}

/// A program and its arguments.
#[derive(Debug)]
pub struct ClientCommand {
    pub program: String,
    pub args: Vec<String>,
}

/// The client program for a platform.
pub open spec fn client_program(platform: ClientPlatform) -> Seq<char> {
    match platform {
        ClientPlatform::Windows => "mstsc.exe"@,
        ClientPlatform::MacOs => "xfreerdp"@,
        ClientPlatform::Other => "xfreerdp3"@,
    }
}

/// The arguments that make the client connect to `config`.
pub open spec fn client_args(config: RdpConfig, platform: ClientPlatform) -> Seq<Seq<char>> {
    let target = "/v:"@ + address_text(config.hostname@, config.port as int);
    let user = "/u:"@ + config.username@;
    let pass = "/p:"@ + config.password@;
    match platform {
        ClientPlatform::Windows => seq![target, user],
        ClientPlatform::MacOs => seq![
            target,
            user,
            pass,
            "/cert:ignore"@,
            "/dynamic-resolution"@,
            "/clipboard"@,
            "/audio-mode:0"@,
        ],
        ClientPlatform::Other => seq![
            target,
            user,
            pass,
            "/cert:ignore"@,
            "/dynamic-resolution"@,
            "/clipboard"@,
            "/audio-mode:0"@,
            "/drive:home,/home"@,
        ],
    }
}

/// The texts of a list of strings.
pub open spec fn texts(v: Seq<String>) -> Seq<Seq<char>> {
    v.map_values(|s: String| s@)
}

/// What the first argument starts with: `/v:`, the hostname and a colon.
pub open spec fn target_prefix(config: RdpConfig) -> Seq<char> {
    "/v:"@ + config.hostname@ + seq![':']
}

/// The client is pointed at the saved host and the saved port itself: the
/// first argument is `/v:`, the hostname, a colon and then the usual decimal
/// text of `config.port`; the second is `/u:` and the user name; only off
/// Windows does more follow, the password first.
pub proof fn lemma_client_target(config: RdpConfig, platform: ClientPlatform)
    ensures
        client_args(config, platform).len() >= 2,
        client_args(config, platform)[0].len() > target_prefix(config).len(),
        client_args(config, platform)[0].subrange(0, target_prefix(config).len() as int)
            == target_prefix(config),
        denotes_integer(
            client_args(config, platform)[0].subrange(
                target_prefix(config).len() as int,
                client_args(config, platform)[0].len() as int,
            ),
            config.port as int,
        ),
        client_args(config, platform)[1] == "/u:"@ + config.username@,
        (platform == ClientPlatform::Windows) <==> client_args(config, platform).len() == 2,
        platform != ClientPlatform::Windows ==> client_args(config, platform)[2] == "/p:"@
            + config.password@,
{
    let host = config.hostname@;
    let port = config.port as int;
    lemma_address_text_parts(host, port);
    let a = address_text(host, port);
    let t = client_args(config, platform)[0];
    let v = "/v:"@;
    let p = target_prefix(config);
    assert(t == v + a);
    assert(p =~= v + a.subrange(0, host.len() + 1int));
    assert(t.subrange(0, p.len() as int) =~= p);
    assert(t.subrange(p.len() as int, t.len() as int) =~= a.subrange(
        host.len() + 1int,
        a.len() as int,
    ));
}

fn joined(prefix: &str, value: &str) -> (s: String)
    ensures
        s@ == prefix@ + value@,
{
    let mut s = String::from_str(prefix);
    s.append(value);
    s
}

/// The command line that launches the RDP client for `config` on `platform`.
pub fn client_command(config: &RdpConfig, platform: ClientPlatform) -> (c: ClientCommand)
    ensures
        c.program@ == client_program(platform),
        texts(c.args@) == client_args(*config, platform),
{
    let addr = address(config.hostname.as_str(), config.port as i64);
    let mut args: Vec<String> = Vec::new();
    args.push(joined("/v:", addr.as_str()));
    args.push(joined("/u:", config.username.as_str()));
    let program = match platform {
        ClientPlatform::Windows => String::from_str("mstsc.exe"),
        ClientPlatform::MacOs => String::from_str("xfreerdp"),
        ClientPlatform::Other => String::from_str("xfreerdp3"),
    };
    if platform != ClientPlatform::Windows {
        args.push(joined("/p:", config.password.as_str()));
        args.push(String::from_str("/cert:ignore"));
        args.push(String::from_str("/dynamic-resolution"));
        args.push(String::from_str("/clipboard"));
        args.push(String::from_str("/audio-mode:0"));
        if platform == ClientPlatform::Other {
            args.push(String::from_str("/drive:home,/home"));
        }
    }
    proof {
        assert(texts(args@) =~= client_args(*config, platform));
    }
    ClientCommand { program, args }
}

/// A launched client: its process id and the connection it serves.
#[derive(Debug)]
pub struct LaunchedClient {
    pub pid: u32,
    pub config: RdpConfig,
}

/// The message of a launch that failed with `reason`.
pub open spec fn launch_failure_text(reason: Seq<char>) -> Seq<char> {
    "Failed to launch RDP client: "@ + reason + ". Is xfreerdp3/xfreerdp installed?"@
}

/// `info` shows the session `id` run by `client`.
pub open spec fn describes(info: SessionInfo, id: u32, client: LaunchedClient) -> bool {
    &&& info.session_id == id
    &&& info.connection_id == client.config.connection_id
    &&& info.hostname@ == client.config.hostname@
    &&& info.pid == client.pid
    &&& info.status@ == "connected"@
}

/// The clients launched so far and not yet closed or seen to exit.
pub struct SessionManager {
    table: SessionRegistry<LaunchedClient>,
}

impl SessionManager {
    /// The running sessions, by id.
    pub closed spec fn sessions(&self) -> Map<u32, LaunchedClient> {
        self.table.sessions()
    }

    /// The id that the next launched session receives.
    pub closed spec fn next_id(&self) -> nat {
        self.table.next_id()
    }

    /// Every session id lies in `1..next_id`, and the counter fits a `u32`.
    pub open spec fn wf(&self) -> bool {
        &&& 1 <= self.next_id() <= u32::MAX
        &&& ids_below(self.sessions(), self.next_id())
    }

    /// A manager with no sessions, whose first session id is 1.
    pub fn new() -> (r: Self)
        ensures
            r.wf(),
            r.sessions() == Map::<u32, LaunchedClient>::empty(),
            r.next_id() == 1,
    {
        SessionManager { table: SessionRegistry::new() }
    }

    /// The id that the next launched session receives.
    pub fn next_session_id(&self) -> (r: u32)
        requires
            self.wf(),
        ensures
            r as nat == self.next_id(),
    {
        self.table.next_session_id()
    }

    /// Records the outcome of launching `command`, the client command line
    /// for `config` on `platform`: the process id of the started client, or
    /// the reason the launch failed.
    pub fn open(
        &mut self,
        config: RdpConfig,
        platform: ClientPlatform,
        command: &ClientCommand,
        launched: Result<u32, String>,
    ) -> (r: Result<SessionInfo, String>)
        requires
            old(self).wf(),
            command.program@ == client_program(platform),
            texts(command.args@) == client_args(config, platform),
            launched is Ok ==> old(self).next_id() < u32::MAX,
        ensures
            final(self).wf(),
            match launched {
                Ok(pid) => {
                    &&& r matches Ok(info) && {
                        &&& info.session_id as nat == old(self).next_id()
                        &&& describes(info, info.session_id, LaunchedClient { pid, config })
                    }
                    &&& !old(self).sessions().contains_key(old(self).next_id() as u32)
                    &&& final(self).sessions() == old(self).sessions().insert(
                        old(self).next_id() as u32,
                        LaunchedClient { pid, config },
                    )
                    &&& final(self).next_id() == old(self).next_id() + 1
                },
                Err(reason) => {
                    &&& r matches Err(msg) && msg@ == launch_failure_text(reason@)
                    &&& final(self).sessions() == old(self).sessions()
                    &&& final(self).next_id() == old(self).next_id()
                },
            },
    {
        match launched {
            Ok(pid) => {
                let hostname = config.hostname.clone();
                let connection_id = config.connection_id;
                let session_id = self.table.open(LaunchedClient { pid, config });
                Ok(
                    SessionInfo {
                        session_id,
                        connection_id,
                        hostname,
                        pid,
                        status: String::from_str("connected"),
                    },
                )
            },
            Err(reason) => {
                let mut msg = String::from_str("Failed to launch RDP client: ");
                msg.append(reason.as_str());
                msg.append(". Is xfreerdp3/xfreerdp installed?");
                Err(msg)
            },
        }
    }

    /// Forgets the session `session_id`; fails when there is none.
    pub fn close(&mut self, session_id: u32) -> (r: Result<(), String>)
        requires
            old(self).wf(),
        ensures
            final(self).wf(),
            final(self).sessions() == old(self).sessions().remove(session_id),
            final(self).next_id() == old(self).next_id(),
            r is Ok <==> old(self).sessions().contains_key(session_id),
            r matches Err(msg) ==> msg@ == "Session not found"@,
    {
        match self.table.remove(session_id) {
            Some(_) => Ok(()),
            None => Err(String::from_str("Session not found")),
        }
    }

    /// Forgets the sessions whose client has exited, then lists the others,
    /// each once, in no particular order.
    pub fn list_active(&mut self, exited: &Vec<u32>) -> (r: Vec<SessionInfo>)
        requires
            old(self).wf(),
        ensures
            final(self).wf(),
            final(self).sessions() == old(self).sessions().remove_keys(exited@.to_set()),
            final(self).next_id() == old(self).next_id(),
            r@.len() == final(self).sessions().dom().len(),
            forall|i: int|
                0 <= i < r@.len() ==> {
                    &&& final(self).sessions().contains_key(#[trigger] r@[i].session_id)
                    &&& describes(r@[i], r@[i].session_id, final(self).sessions()[r@[i].session_id])
                },
            forall|i: int, j: int|
                0 <= i < r@.len() && 0 <= j < r@.len() && i != j ==> r@[i].session_id
                    != r@[j].session_id,
            forall|id: u32|
                #[trigger] final(self).sessions().contains_key(id) ==> exists|i: int|
                    0 <= i < r@.len() && r@[i].session_id == id,
    {
        let mut k: usize = 0;
        while k < exited.len()
            invariant
                self.wf(),
                k <= exited@.len(),
                self.sessions() == old(self).sessions().remove_keys(exited@.take(k as int).to_set()),
                self.next_id() == old(self).next_id(),
            decreases exited@.len() - k,
        {
            self.table.remove(exited[k]);
            proof {
                assert(exited@.take(k + 1) =~= exited@.take(k as int).push(exited@[k as int]));
                exited@.take(k as int).lemma_push_to_set_commute(exited@[k as int]);
                assert(old(self).sessions().remove_keys(exited@.take(k + 1).to_set()) =~= old(
                    self,
                ).sessions().remove_keys(exited@.take(k as int).to_set()).remove(exited@[k as int]));
            }
            k = k + 1;
        }
        proof {
            assert(exited@.take(exited@.len() as int) =~= exited@);
        }
        let ids = self.table.ids();
        let mut out: Vec<SessionInfo> = Vec::new();
        let mut i: usize = 0;
        while i < ids.len()
            invariant
                self.wf(),
                i <= ids@.len(),
                ids@.no_duplicates(),
                forall|id: u32| self.sessions().contains_key(id) <==> ids@.contains(id),
                out@.len() == i,
                forall|j: int| 0 <= j < i ==> #[trigger] out@[j].session_id == ids@[j],
                forall|j: int| 0 <= j < i ==> self.sessions().contains_key(#[trigger] ids@[j]),
                forall|j: int|
                    0 <= j < i ==> describes(#[trigger] out@[j], ids@[j], self.sessions()[ids@[j]]),
            decreases ids@.len() - i,
        {
            let id = ids[i];
            let ghost old_out = out@;
            proof {
                assert(ids@.contains(id));
            }
            match self.table.get(id) {
                Some(client) => {
                    out.push(
                        SessionInfo {
                            session_id: id,
                            connection_id: client.config.connection_id,
                            hostname: client.config.hostname.clone(),
                            pid: client.pid,
                            status: String::from_str("connected"),
                        },
                    );
                },
                None => {
                    assert(false);
                },
            }
            proof {
                assert(describes(out@[i as int], ids@[i as int], self.sessions()[ids@[i as int]]));
                assert forall|j: int| 0 <= j < i + 1 implies describes(
                    #[trigger] out@[j],
                    ids@[j],
                    self.sessions()[ids@[j]],
                ) by {
                    if j < i {
                        assert(out@[j] == old_out[j]);
                    }
                }
            }
            i = i + 1;
        }
        proof {
            assert forall|id: u32| #[trigger] self.sessions().contains_key(id) implies exists|
                i: int,
            | 0 <= i < out@.len() && out@[i].session_id == id by {
                assert(ids@.contains(id));
                let i = ids@.index_of(id);
                assert(out@[i].session_id == id);
            }
            assert forall|i: int| 0 <= i < out@.len() implies #[trigger] self.sessions().contains_key(
                out@[i].session_id,
            ) by {
                assert(ids@.contains(ids@[i]));
            }
        }
        out
    }

    /// Forgets every session; ids already handed out stay used.
    pub fn close_all(&mut self)
        requires
            old(self).wf(),
        ensures
            final(self).wf(),
            final(self).sessions() == Map::<u32, LaunchedClient>::empty(),
            final(self).next_id() == old(self).next_id(),
    {
        self.table.clear();
    }
}

/// The launch settings for the saved connection `connection_id`, taken from
/// the first profile in `profiles` with that id.
pub fn config_for_connection(profiles: &Vec<ConnectionProfile>, connection_id: i64) -> (r: Result<
    RdpConfig,
    String,
>)
    ensures
        match r {
            Ok(config) => exists|i: int|
                {
                    &&& 0 <= i < profiles@.len()
                    &&& profiles@[i].id == connection_id
                    &&& forall|j: int| 0 <= j < i ==> profiles@[j].id != connection_id
                    &&& config.connection_id == profiles@[i].id
                    &&& config.hostname == profiles@[i].hostname
                    &&& config.port == profiles@[i].port
                    &&& config.username == profiles@[i].username
                    &&& config.password == profiles@[i].password
                },
            Err(msg) => {
                &&& msg@ == "Connection not found"@
                &&& forall|i: int| 0 <= i < profiles@.len() ==> profiles@[i].id != connection_id
            },
        },
{
    match find_connection(profiles, connection_id) {
        Some(profile) => Ok(
            RdpConfig {
                connection_id: profile.id,
                hostname: profile.hostname.clone(),
                port: profile.port,
                username: profile.username.clone(),
                password: profile.password.clone(),
            },
        ),
        None => Err(String::from_str("Connection not found")),
    }
}

/// Closing the session that `open` has just filed gives back the sessions as
/// they were before, and a second close of it finds nothing.
pub proof fn lemma_open_then_close(
    before: SessionManager,
    opened: SessionManager,
    closed: SessionManager,
    client: LaunchedClient,
)
    requires
        before.wf(),
        before.next_id() < u32::MAX,
        opened.sessions() == before.sessions().insert(before.next_id() as u32, client),
        closed.sessions() == opened.sessions().remove(before.next_id() as u32),
    ensures
        closed.sessions() == before.sessions(),
        !closed.sessions().contains_key(before.next_id() as u32),
{
    crate::registry::lemma_close_undoes_open(before.sessions(), before.next_id(), client);
}

/// Listing the sessions when no client has exited leaves them as they were,
/// so two listings in a row show the same sessions.
pub proof fn lemma_listing_keeps_sessions(before: SessionManager, after: SessionManager)
    requires
        after.sessions() == before.sessions().remove_keys(Seq::<u32>::empty().to_set()),
    ensures
        after.sessions() == before.sessions(),
{
    assert(Seq::<u32>::empty().to_set() =~= Set::<u32>::empty());
    assert(before.sessions().remove_keys(Set::<u32>::empty()) =~= before.sessions());
}

} // verus!
