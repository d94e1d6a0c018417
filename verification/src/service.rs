use vstd::prelude::*;
use crate::error::Error;

verus! {

/// The state of a service that the manager keeps.
#[derive(Clone, Copy, Debug, PartialEq, Eq, Structural)]
pub enum ServiceStatus {
    /// The service has been added but not started for the first time
    Added,
    /// Last time we checked the service was running
    Running,
    /// The service has been stopped
    Stopped,
    /// The service has been removed
    Removed,
}

/// An IP address.
#[derive(Clone, Copy, Debug, PartialEq, Eq, Structural)]
pub enum IpAddress {
    /// An IPv4 address, by its four octets.
    V4(u8, u8, u8, u8),
    /// An IPv6 address, as one 128-bit number.
    V6(u128),
}

/// An IP address and a port.
#[derive(Clone, Copy, Debug, PartialEq, Eq, Structural)]
pub struct SocketAddress {
    pub ip: IpAddress,
    pub port: u16,
}

/// What every managed service tells of itself. `initialize` takes what was
/// observed of the running service and records it.
pub trait ServiceStateActions {
    /// What is observed of a service when it is initialized.
    type Observation;

    fn bin_path(&self) -> String;

    fn data_dir_path(&self) -> String;

    fn log_dir_path(&self) -> String;

    fn name(&self) -> String;

    fn pid(&self) -> Option<u32>;

    fn initialize(&mut self, observed: Self::Observation) -> Result<(), Error>;

    fn status(&self) -> ServiceStatus;
}

/// The faucet service of a local network.
pub struct Faucet {
    pub faucet_path: String,
    pub local: bool,
    pub log_dir_path: String,
    pub pid: Option<u32>,
    pub service_name: String,
    pub status: ServiceStatus,
    pub user: String,
    pub version: String,
}

/// The node manager's daemon service.
pub struct Daemon {
    pub daemon_path: String,
    pub endpoint: Option<SocketAddress>,
    pub pid: Option<u32>,
    pub service_name: String,
    pub status: ServiceStatus,
}

/// The mathematical value of a [`Faucet`].
pub struct FaucetView {
    pub faucet_path: Seq<char>,
    pub local: bool,
    pub log_dir_path: Seq<char>,
    pub pid: Option<u32>,
    pub service_name: Seq<char>,
    pub status: ServiceStatus,
    pub user: Seq<char>,
    pub version: Seq<char>,
}

/// The mathematical value of a [`Daemon`].
pub struct DaemonView {
    pub daemon_path: Seq<char>,
    pub endpoint: Option<SocketAddress>,
    pub pid: Option<u32>,
    pub service_name: Seq<char>,
    pub status: ServiceStatus,
}

impl View for Faucet {
    type V = FaucetView;

    open spec fn view(&self) -> FaucetView {
        FaucetView {
            faucet_path: self.faucet_path@,
            local: self.local,
            log_dir_path: self.log_dir_path@,
            pid: self.pid,
            service_name: self.service_name@,
            status: self.status,
            user: self.user@,
            version: self.version@,
        }
    }
}

impl View for Daemon {
    type V = DaemonView;

    open spec fn view(&self) -> DaemonView {
        DaemonView {
            daemon_path: self.daemon_path@,
            endpoint: self.endpoint,
            pid: self.pid,
            service_name: self.service_name@,
            status: self.status,
        }
    }
}

impl Faucet {
    /// A second value of the same faucet record.
    pub fn duplicate(&self) -> (r: Faucet)
        ensures
            r@ == self@,
    {
        Faucet {
            faucet_path: self.faucet_path.clone(),
            local: self.local,
            log_dir_path: self.log_dir_path.clone(),
            pid: self.pid,
            service_name: self.service_name.clone(),
            status: self.status,
            user: self.user.clone(),
            version: self.version.clone(),
        }
    }
}

impl Daemon {
    /// A second value of the same daemon record.
    pub fn duplicate(&self) -> (r: Daemon)
        ensures
            r@ == self@,
    {
        Daemon {
            daemon_path: self.daemon_path.clone(),
            endpoint: self.endpoint,
            pid: self.pid,
            service_name: self.service_name.clone(),
            status: self.status,
        }
    }
}

} // verus!
