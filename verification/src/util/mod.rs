pub mod digest;
pub mod decimal;
pub mod port_manager;

pub use digest::Digest;
pub use port_manager::AutoNegotiation;
pub use port_manager::Loopback;
pub use port_manager::Port;
pub use port_manager::PortManager;
pub use port_manager::Speed;
pub use port_manager::FEC;
pub mod pretty_printer;
pub use pretty_printer::PrettyPrinter;
