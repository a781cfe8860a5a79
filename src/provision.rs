//! Idempotent provisioning of a user's bouncer account and terminal client
//! configuration.

use vstd::prelude::*;

use crate::bouncer::CommandOutcome;
use crate::errors::GatewayError;

verus! {

/// Number of random bytes in a generated credential.
pub const PASSWORD_BYTES: usize = 16;

/// A concurrent set of usernames: a map to `()`.
pub type MarkMap = dashmap::DashMap<String, ()>;

/// The usernames a marker map holds.
pub uninterp spec fn marked_names(m: MarkMap) -> Set<Seq<char>>;

/// Relies on `dashmap::DashMap::new`: an empty map.
#[verifier::external_body]
fn mark_map_new() -> (r: MarkMap)
    ensures
        marked_names(r) == Set::<Seq<char>>::empty(),
{
    dashmap::DashMap::new()
}

/// Relies on `dashmap::DashMap::contains_key`: whether the key is present.
#[verifier::external_body]
fn mark_map_contains(m: &MarkMap, key: &str) -> (r: bool)
    ensures
        r == marked_names(*m).contains(key@),
{
    m.contains_key(key)
}

/// Relies on `dashmap::DashMap::insert`: the key is now present.
#[verifier::external_body]
fn mark_map_insert(m: &mut MarkMap, key: String)
    ensures
        marked_names(*final(m)) == marked_names(*old(m)).insert(key@),
{
    m.insert(key, ());
}

/// Relies on `dashmap::DashMap::remove`: the key is no longer present.
#[verifier::external_body]
fn mark_map_remove(m: &mut MarkMap, key: &str)
    ensures
        marked_names(*final(m)) == marked_names(*old(m)).remove(key@),
{
    m.remove(key);
}

/// Provisions users on the bouncer: its admin socket, where the users'
/// directories live, the bouncer's address for clients, the upstream network,
/// and the provisioning marker (the users provisioned in this process run).
pub struct Manager {
    socket_path: String,
    sessions_dir: String,
    bouncer_addr: String,
    irc_addr: String,
    network_name: String,
    marked: MarkMap,
}

/// The idempotency check of provisioning `u`: nothing to do if `u` is marked,
/// or if its configuration file exists (then `u` gets marked); otherwise the
/// work is to be done and the marker is unchanged.
pub open spec fn check_spec(m: Set<Seq<char>>, u: Seq<char>, config_exists: bool) -> (Set<Seq<char>>, bool) {
    if m.contains(u) {
        (m, false)
    } else if config_exists {
        (m.insert(u), false)
    } else {
        (m, true)
    }
}

/// Once `u` has been provisioned (marked), a second request does nothing,
/// whatever the disk holds: no command is sent and no file is written.
pub proof fn lemma_ensure_twice_is_noop(m: Set<Seq<char>>, u: Seq<char>, config_exists: bool)
    ensures
        check_spec(m.insert(u), u, config_exists) == (m.insert(u), false),
{
}

/// A user whose configuration file exists is never provisioned again, even
/// with an empty marker (after a restart).
pub proof fn lemma_config_on_disk_is_noop(m: Set<Seq<char>>, u: Seq<char>)
    ensures
        !check_spec(m, u, true).1,
{
}

impl View for Manager {
    type V = Set<Seq<char>>;

    closed spec fn view(&self) -> Set<Seq<char>> {
        marked_names(self.marked)
    }
}

impl Manager {
    pub closed spec fn socket_path_of(&self) -> Seq<char> {
        self.socket_path@
    }

    pub closed spec fn sessions_dir_of(&self) -> Seq<char> {
        self.sessions_dir@
    }

    pub closed spec fn bouncer_addr_of(&self) -> Seq<char> {
        self.bouncer_addr@
    }

    pub closed spec fn irc_addr_of(&self) -> Seq<char> {
        self.irc_addr@
    }

    pub closed spec fn network_name_of(&self) -> Seq<char> {
        self.network_name@
    }

    pub open spec fn same_settings(&self, other: &Manager) -> bool {
        &&& self.socket_path_of() == other.socket_path_of()
        &&& self.sessions_dir_of() == other.sessions_dir_of()
        &&& self.bouncer_addr_of() == other.bouncer_addr_of()
        &&& self.irc_addr_of() == other.irc_addr_of()
        &&& self.network_name_of() == other.network_name_of()
    }

    /// A provisioner with no user marked.
    pub fn new(
        socket_path: String,
        sessions_dir: String,
        bouncer_addr: String,
        irc_addr: String,
        network_name: String,
    ) -> (r: Manager)
        ensures
            r@ == Set::<Seq<char>>::empty(),
            r.socket_path_of() == socket_path@,
            r.sessions_dir_of() == sessions_dir@,
            r.bouncer_addr_of() == bouncer_addr@,
            r.irc_addr_of() == irc_addr@,
            r.network_name_of() == network_name@,
    {
        let r = Manager { socket_path, sessions_dir, bouncer_addr, irc_addr, network_name, marked: mark_map_new() };
        assert(r@ =~= Set::<Seq<char>>::empty());
        r
    }

    /// The bouncer's admin socket.
    pub fn socket_path(&self) -> (r: &str)
        ensures
            r@ == self.socket_path_of(),
    {
        self.socket_path.as_str()
    }

    /// The directory of `username`'s files.
    pub fn user_dir(&self, username: &str) -> (r: String)
        ensures
            r@ == self.sessions_dir_of() + "/"@ + username@,
    {
        let mut r = self.sessions_dir.clone();
        r.append("/");
        r.append(username);
        r
    }

    /// The terminal client configuration file of `username`.
    pub fn config_file(&self, username: &str) -> (r: String)
        ensures
            r@ == self.sessions_dir_of() + "/"@ + username@ + "/irssi.conf"@,
    {
        let mut r = self.user_dir(username);
        r.append("/irssi.conf");
        r
    }

    /// The command that attaches the upstream network to `username`'s account.
    pub fn network_command(&self, username: &str) -> (r: String)
        ensures
            r@ == network_create_text(username@, self.network_name_of(), self.irc_addr_of()),
    {
        network_create_command(username, self.network_name.as_str(), self.irc_addr.as_str())
    }

    /// The configuration file text of `username` with credential `password`.
    pub fn config_for(&self, username: &str, password: &str) -> (r: String)
        ensures
            r@ == config_text(
                split_addr_spec(self.bouncer_addr_of()).0,
                split_addr_spec(self.bouncer_addr_of()).1,
                username@,
                self.network_name_of(),
                password@,
            ),
    {
        render_config(self.bouncer_addr.as_str(), username, self.network_name.as_str(), password)
    }

    /// Starts deleting `username`: the mark is cleared first, so that no
    /// later request takes the user as provisioned even if the remote delete
    /// fails; the remote delete command is returned.
    pub fn delete_user(&mut self, username: &str) -> (r: String)
        ensures
            final(self)@ == old(self)@.remove(username@),
            final(self).same_settings(old(self)),
            r@ == user_delete_text(username@),
    {
        self.unmark(username);
        user_delete_command(username)
    }

    /// Whether `username` is marked as provisioned.
    pub fn is_marked(&self, username: &str) -> (r: bool)
        ensures
            r == self@.contains(username@),
    {
        mark_map_contains(&self.marked, username)
    }

    /// Marks `username` as provisioned.
    pub fn mark(&mut self, username: &str)
        ensures
            final(self)@ == old(self)@.insert(username@),
            final(self).same_settings(old(self)),
    {
        mark_map_insert(&mut self.marked, String::from_str(username));
    }

    /// Clears the mark of `username`.
    pub fn unmark(&mut self, username: &str)
        ensures
            final(self)@ == old(self)@.remove(username@),
            final(self).same_settings(old(self)),
    {
        mark_map_remove(&mut self.marked, username);
    }

    /// The idempotency check that opens provisioning of `username`, given
    /// whether its configuration file exists: `false` when there is nothing
    /// to do (marking the user if the file exists), `true` when the account
    /// must be created. After the account and the file are made, the caller
    /// marks the user.
    pub fn ensure_user(&mut self, username: &str, config_exists: bool) -> (r: bool)
        ensures
            final(self).same_settings(old(self)),
            (final(self)@, r) == check_spec(old(self)@, username@, config_exists),
    {
        if self.is_marked(username) {
            false
        } else if config_exists {
            self.mark(username);
            false
        } else {
            true
        }
    }
}

/// Whether a create command's outcome lets provisioning go on: an object
/// that already exists counts as created.
pub fn command_result(outcome: CommandOutcome) -> (r: Result<(), GatewayError>)
    ensures
        r == (match outcome {
            CommandOutcome::Failed => Err::<(), GatewayError>(GatewayError::ProvisionFailed),
            _ => Ok::<(), GatewayError>(()),
        }),
{
    match outcome {
        CommandOutcome::Failed => Err(GatewayError::ProvisionFailed),
        _ => Ok(()),
    }
}

pub open spec fn user_create_text(username: Seq<char>, password: Seq<char>) -> Seq<char> {
    "user create -username "@ + username + " -password "@ + password
}

pub open spec fn network_create_text(username: Seq<char>, network: Seq<char>, address: Seq<char>) -> Seq<char> {
    "network create -user "@ + username + " -name "@ + network + " -addr "@ + address + " -nick "@
        + username
}

pub open spec fn user_delete_text(username: Seq<char>) -> Seq<char> {
    "user delete "@ + username
}

/// The command that creates the bouncer account.
pub fn user_create_command(username: &str, password: &str) -> (r: String)
    ensures
        r@ == user_create_text(username@, password@),
{
    let mut r = String::from_str("user create -username ");
    r.append(username);
    r.append(" -password ");
    r.append(password);
    r
}

/// The command that attaches the upstream network to the account, with the
/// username as nickname.
pub fn network_create_command(username: &str, network: &str, address: &str) -> (r: String)
    ensures
        r@ == network_create_text(username@, network@, address@),
{
    let mut r = String::from_str("network create -user ");
    r.append(username);
    r.append(" -name ");
    r.append(network);
    r.append(" -addr ");
    r.append(address);
    r.append(" -nick ");
    r.append(username);
    r
}

/// The command that deletes the bouncer account.
pub fn user_delete_command(username: &str) -> (r: String)
    ensures
        r@ == user_delete_text(username@),
{
    let mut r = String::from_str("user delete ");
    r.append(username);
    r
}

/// Index of the last `':'` among the first `n` characters, or -1.
pub open spec fn last_colon(s: Seq<char>, n: int) -> int
    decreases n,
{
    if n <= 0 {
        -1
    } else if s[n - 1] == ':' {
        n - 1
    } else {
        last_colon(s, n - 1)
    }
}

/// An address split at its last `':'` into host and port; without one, the
/// whole text is the host and the port is 6667.
pub open spec fn split_addr_spec(addr: Seq<char>) -> (Seq<char>, Seq<char>) {
    let k = last_colon(addr, addr.len() as int);
    if k < 0 {
        (addr, "6667"@)
    } else {
        (addr.take(k), addr.subrange(k + 1, addr.len() as int))
    }
}

/// Splits `host:port` at its last `':'`.
pub fn split_addr(addr: &str) -> (r: (&str, &str))
    ensures
        (r.0@, r.1@) == split_addr_spec(addr@),
{
    let n = addr.unicode_len();
    let mut k = n;
    while k > 0
        invariant
            n == addr@.len(),
            k <= n,
            last_colon(addr@, n as int) == last_colon(addr@, k as int),
        ensures
            k == 0 || addr@[k - 1] == ':',
        decreases k,
    {
        if addr.get_char(k - 1) == ':' {
            break;
        }
        k = k - 1;
    }
    if k == 0 {
        assert(last_colon(addr@, 0) == -1);
        (addr, "6667")
    } else {
        assert(last_colon(addr@, k as int) == k - 1);
        (addr.substring_char(0, k - 1), addr.substring_char(k, n))
    }
}

/// One lower-case hex digit.
pub open spec fn hex_digit(n: int) -> char {
    if n < 10 {
        ((48 + n) as u8) as char
    } else {
        ((87 + n) as u8) as char
    }
}

/// Lower-case hex text of bytes, two digits per byte, high nibble first.
pub open spec fn hex_of(b: Seq<u8>) -> Seq<char>
    decreases b.len(),
{
    if b.len() == 0 {
        Seq::empty()
    } else {
        hex_of(b.drop_last()) + seq![hex_digit(b.last() as int / 16), hex_digit(b.last() as int % 16)]
    }
}

/// Relies on `hex::encode`: two lower-case hex digits per byte, high nibble
/// first.
#[verifier::external_body]
fn hex_encode(bytes: &Vec<u8>) -> (r: String)
    ensures
        r@ == hex_of(bytes@),
{
    hex::encode(bytes)
}

/// Relies on `rand::thread_rng` and `Rng::gen`: a byte drawn from the
/// thread-local generator. Nothing is known of its value.
#[verifier::external_body]
fn random_byte() -> (r: u8) {
    rand::Rng::gen::<u8>(&mut rand::thread_rng())
}

/// A fresh credential: 16 random bytes as 32 hex digits.
pub fn random_password() -> (r: String)
    ensures
        exists|b: Seq<u8>| b.len() == PASSWORD_BYTES && r@ == hex_of(b),
{
    let mut bytes: Vec<u8> = Vec::new();
    let mut i: usize = 0;
    while i < PASSWORD_BYTES
        invariant
            i <= PASSWORD_BYTES,
            bytes@.len() == i,
        decreases PASSWORD_BYTES - i,
    {
        bytes.push(random_byte());
        i = i + 1;
    }
    let r = hex_encode(&bytes);
    assert(bytes@.len() == PASSWORD_BYTES && r@ == hex_of(bytes@));
    r
}

/// The terminal client's configuration for a user: one server block that
/// reaches the bouncer with the user's credential for the network, and an
/// identity block naming the user.
pub open spec fn config_text(
    host: Seq<char>,
    port: Seq<char>,
    username: Seq<char>,
    network: Seq<char>,
    password: Seq<char>,
) -> Seq<char> {
    "servers = ({\n  address = \""@ + host + "\";\n  port = "@ + port
        + ";\n  use_ssl = no;\n  password = \""@ + username + "/"@ + network + ":"@ + password
        + "\";\n  autoconnect = yes;\n});\n\nsettings = {\n  core = {\n    real_name = \""@
        + username + "\";\n    user_name = \""@ + username + "\";\n    nick = \""@ + username
        + "\";\n  };\n  \"fe-text\" = { term_charset = \"UTF-8\"; };\n  \"fe-common/core\" = { term_charset = \"UTF-8\"; };\n};\n"@
}

/// Writes out the configuration file's text for `username`, reaching the
/// bouncer at `bouncer_addr` (`host:port`).
pub fn render_config(bouncer_addr: &str, username: &str, network: &str, password: &str) -> (r: String)
    ensures
        r@ == config_text(
            split_addr_spec(bouncer_addr@).0,
            split_addr_spec(bouncer_addr@).1,
            username@,
            network@,
            password@,
        ),
{
    let (host, port) = split_addr(bouncer_addr);
    let mut r = String::from_str("servers = ({\n  address = \"");
    r.append(host);
    r.append("\";\n  port = ");
    r.append(port);
    r.append(";\n  use_ssl = no;\n  password = \"");
    r.append(username);
    r.append("/");
    r.append(network);
    r.append(":");
    r.append(password);
    r.append("\";\n  autoconnect = yes;\n});\n\nsettings = {\n  core = {\n    real_name = \"");
    r.append(username);
    r.append("\";\n    user_name = \"");
    r.append(username);
    r.append("\";\n    nick = \"");
    r.append(username);
    r.append("\";\n  };\n  \"fe-text\" = { term_charset = \"UTF-8\"; };\n  \"fe-common/core\" = { term_charset = \"UTF-8\"; };\n};\n");
    r
}

/// Where the provisioning of one user stands.
#[derive(Debug, Clone, Copy, PartialEq, Eq, Structural)]
pub enum Stage {
    /// The account creation command is out.
    CreateUser,
    /// The network creation command is out.
    CreateNetwork,
    /// The configuration file is being written.
    WriteConfig,
    /// The user is provisioned.
    Done,
    /// Provisioning failed.
    Failed,
}

/// What the caller does next while provisioning a user.
pub enum ProvisionStep {
    /// Run this command on the bouncer and report its outcome.
    Command(String),
    /// Write this text as the user's configuration file, then report.
    WriteConfig(String),
    /// Stop with this error.
    Fail(GatewayError),
}

/// Model of a [`ProvisionStep`].
pub enum StepView {
    Command(Seq<char>),
    WriteConfig(Seq<char>),
    Fail(GatewayError),
}

impl View for ProvisionStep {
    type V = StepView;

    open spec fn view(&self) -> StepView {
        match self {
            ProvisionStep::Command(t) => StepView::Command(t@),
            ProvisionStep::WriteConfig(t) => StepView::WriteConfig(t@),
            ProvisionStep::Fail(e) => StepView::Fail(*e),
        }
    }
}

/// The provisioning of one user with a fresh credential: the account is
/// created, then the upstream network; an object that already exists counts
/// as created; then the configuration file is written and the user marked.
pub struct Provisioning {
    username: String,
    password: String,
    stage: Stage,
}

/// One reported outcome in `stage`: the next stage and step.
pub open spec fn outcome_step_spec(
    stage: Stage,
    m: &Manager,
    username: Seq<char>,
    password: Seq<char>,
    outcome: CommandOutcome,
) -> (Stage, StepView) {
    match stage {
        Stage::CreateUser => if outcome == CommandOutcome::Failed {
            (Stage::Failed, StepView::Fail(GatewayError::ProvisionFailed))
        } else {
            (Stage::CreateNetwork, StepView::Command(network_create_text(username, m.network_name_of(), m.irc_addr_of())))
        },
        Stage::CreateNetwork => if outcome == CommandOutcome::Failed {
            (Stage::Failed, StepView::Fail(GatewayError::ProvisionFailed))
        } else {
            (
                Stage::WriteConfig,
                StepView::WriteConfig(
                    config_text(
                        split_addr_spec(m.bouncer_addr_of()).0,
                        split_addr_spec(m.bouncer_addr_of()).1,
                        username,
                        m.network_name_of(),
                        password,
                    ),
                ),
            )
        },
        _ => (stage, StepView::Fail(GatewayError::Internal)),
    }
}

impl Provisioning {
    pub closed spec fn stage_of(&self) -> Stage {
        self.stage
    }

    pub closed spec fn username_of(&self) -> Seq<char> {
        self.username@
    }

    pub closed spec fn password_of(&self) -> Seq<char> {
        self.password@
    }

    /// Starts provisioning `username` with credential `password`: the first
    /// step is the account creation command.
    pub fn start(username: &str, password: String) -> (r: (Provisioning, ProvisionStep))
        ensures
            r.0.stage_of() == Stage::CreateUser,
            r.0.username_of() == username@,
            r.0.password_of() == password@,
            r.1@ == StepView::Command(user_create_text(username@, password@)),
    {
        let cmd = user_create_command(username, password.as_str());
        (Provisioning { username: String::from_str(username), password, stage: Stage::CreateUser }, ProvisionStep::Command(cmd))
    }

    /// Where provisioning stands.
    pub fn stage(&self) -> (r: Stage)
        ensures
            r == self.stage_of(),
    {
        self.stage
    }

    /// Takes the outcome of the command that is out and gives the next step.
    pub fn on_outcome(&mut self, m: &Manager, outcome: CommandOutcome) -> (r: ProvisionStep)
        ensures
            final(self).username_of() == old(self).username_of(),
            final(self).password_of() == old(self).password_of(),
            (final(self).stage_of(), r@) == outcome_step_spec(
                old(self).stage_of(),
                m,
                old(self).username_of(),
                old(self).password_of(),
                outcome,
            ),
    {
        match self.stage {
            Stage::CreateUser => match command_result(outcome) {
                Err(e) => {
                    self.stage = Stage::Failed;
                    ProvisionStep::Fail(e)
                },
                Ok(()) => {
                    self.stage = Stage::CreateNetwork;
                    ProvisionStep::Command(m.network_command(self.username.as_str()))
                },
            },
            Stage::CreateNetwork => match command_result(outcome) {
                Err(e) => {
                    self.stage = Stage::Failed;
                    ProvisionStep::Fail(e)
                },
                Ok(()) => {
                    self.stage = Stage::WriteConfig;
                    ProvisionStep::WriteConfig(m.config_for(self.username.as_str(), self.password.as_str()))
                },
            },
            _ => ProvisionStep::Fail(GatewayError::Internal),
        }
    }

    /// The configuration file was written: the user is marked provisioned.
    /// Returns whether that was the step expected.
    pub fn on_written(&mut self, m: &mut Manager) -> (r: bool)
        ensures
            r == (old(self).stage_of() == Stage::WriteConfig),
            r ==> final(self).stage_of() == Stage::Done && final(m)@ == old(m)@.insert(
                old(self).username_of(),
            ),
            !r ==> final(self).stage_of() == old(self).stage_of() && final(m)@ == old(m)@,
            final(m).same_settings(old(m)),
    {
        match self.stage {
            Stage::WriteConfig => {
                m.mark(self.username.as_str());
                self.stage = Stage::Done;
                true
            },
            _ => false,
        }
    }
}

} // verus!
