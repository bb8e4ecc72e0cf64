//! The client of the display controller's socket.
//!
//! The client opens no socket itself.  For each command it says where to
//! connect, what to write and how long a read may block; the caller connects,
//! writes, and closes the connection again.

use crate::command::{command_text, FilterCommand};
use vstd::prelude::*;
use vstd::string::StringExecFns;

verus! {

/// Longest time, in milliseconds, that a read on the controller's socket may
/// block.
pub const READ_TIMEOUT_MILLIS: u64 = 500;

/// One command on its way to the controller, over a connection of its own.
#[derive(Clone, Debug, PartialEq, Eq)]
pub struct Transmission {
    /// Path of the socket to connect to.
    pub sock_path: String,
    /// The line to write.
    pub command: String,
    /// Read timeout to set on the connection, in milliseconds.
    pub read_timeout_millis: u64,
}

/// A variable that the environment must hold and does not.
#[derive(Clone, Copy, Debug, PartialEq, Eq, Structural)]
pub enum EnvironmentError {
    /// `HYPRLAND_INSTANCE_SIGNATURE` is not set.
    InstanceSignatureNotSet,
    /// `XDG_RUNTIME_DIR` is not set.
    RuntimeDirNotSet,
}

/// Path of the controller's socket below the runtime directory.
pub open spec fn socket_path(runtime_dir: Seq<char>, instance_signature: Seq<char>) -> Seq<char> {
    runtime_dir + "/hypr/"@ + instance_signature + "/.hyprsunset.sock"@
}

/// Path of the lock file that keeps a second daemon from starting.
pub open spec fn lock_path(runtime_dir: Seq<char>) -> Seq<char> {
    runtime_dir + "/hyprsunset-overdrive.lock"@
}

/// The controller's socket path, from the instance signature and the runtime
/// directory that the environment gives.
///
/// A missing instance signature is reported first.
pub fn get_hyprsunset_socket_path(
    instance_signature: Option<&str>,
    runtime_dir: Option<&str>,
) -> (path: Result<String, EnvironmentError>)
    ensures
        (match (instance_signature, runtime_dir) {
            (None, _) => path == Err::<String, EnvironmentError>(
                EnvironmentError::InstanceSignatureNotSet,
            ),
            (Some(_), None) => path == Err::<String, EnvironmentError>(
                EnvironmentError::RuntimeDirNotSet,
            ),
            (Some(his), Some(dir)) => path matches Ok(p) && p@ == socket_path(dir@, his@),
        }),
{
    let his = match instance_signature {
        Some(his) => his,
        None => return Err(EnvironmentError::InstanceSignatureNotSet),
    };
    let dir = match runtime_dir {
        Some(dir) => dir,
        None => return Err(EnvironmentError::RuntimeDirNotSet),
    };
    let mut path = String::from_str(dir);
    path.append("/hypr/");
    path.append(his);
    path.append("/.hyprsunset.sock");
    Ok(path)
}

/// The lock file's path below the runtime directory.
pub fn get_lock_path(runtime_dir: &str) -> (path: String)
    ensures
        path@ == lock_path(runtime_dir@),
{
    let mut path = String::from_str(runtime_dir);
    path.append("/hyprsunset-overdrive.lock");
    path
}

/// Client of the controller that listens on one socket.
pub struct HyprsunsetClient {
    sock_path: String,
}

impl View for HyprsunsetClient {
    type V = Seq<char>;

    /// The path of the socket that the client speaks to.
    closed spec fn view(&self) -> Seq<char> {
        self.sock_path@
    }
}

impl HyprsunsetClient {
    /// A client for the controller at `sock_path`.
    pub fn new(sock_path: String) -> (client: Self)
        ensures
            client@ == sock_path@,
    {
        Self { sock_path }
    }

    /// Prepares `command` for sending: a fresh connection to the client's
    /// socket, a short read timeout, and the command as it stands.
    pub fn send_command(&mut self, command: &str) -> (transmission: Transmission)
        ensures
            final(self)@ == old(self)@,
            transmission.sock_path@ == old(self)@,
            transmission.command@ == command@,
            transmission.read_timeout_millis == READ_TIMEOUT_MILLIS,
    {
        Transmission {
            sock_path: self.sock_path.clone(),
            command: String::from_str(command),
            read_timeout_millis: READ_TIMEOUT_MILLIS,
        }
    }

    /// Prepares the command that turns the filter on at `temperature`.
    pub fn enable(&mut self, temperature: i32) -> (transmission: Transmission)
        ensures
            final(self)@ == old(self)@,
            transmission.sock_path@ == old(self)@,
            transmission.command@ == command_text(FilterCommand::Enable(temperature)),
            transmission.read_timeout_millis == READ_TIMEOUT_MILLIS,
    {
        let line = FilterCommand::Enable(temperature).text();
        self.send_command(line.as_str())
    }

    /// Prepares the command that turns the filter off.
    pub fn disable(&mut self) -> (transmission: Transmission)
        ensures
            final(self)@ == old(self)@,
            transmission.sock_path@ == old(self)@,
            transmission.command@ == command_text(FilterCommand::Disable),
            transmission.read_timeout_millis == READ_TIMEOUT_MILLIS,
    {
        self.send_command("identity")
    }

    /// Prepares `command`, whichever it is.
    pub fn apply(&mut self, command: FilterCommand) -> (transmission: Transmission)
        ensures
            final(self)@ == old(self)@,
            transmission.sock_path@ == old(self)@,
            transmission.command@ == command_text(command),
            transmission.read_timeout_millis == READ_TIMEOUT_MILLIS,
    {
        match command {
            FilterCommand::Enable(temperature) => self.enable(temperature),
            FilterCommand::Disable => self.disable(),
        }
    }
}

} // verus!
