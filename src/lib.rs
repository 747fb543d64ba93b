//! A synthetic flow-export traffic generator: address and port selection,
//! flow-record synthesis and the template-synchronisation state machine.

mod external;
pub mod addr;
pub mod ports;
pub mod text;
pub mod flow;
pub mod error;
pub mod sync;
pub mod cli;
pub mod generator;

pub use addr::{Ipv4Subnet, NetAddr};
pub use ports::PortRange;
pub use error::ConfigError;
pub use generator::{NetFlowGenBuilder, NetFlowGenerator};
pub use cli::{parse_mac, parse_port_range, parse_protocol, DstPort, SrcPort};
pub use sync::{Every, Interleve, Once, SyncPolicy, TemplateSyncStrategy};
pub use flow::{FieldKind, FieldSpecifier, FlowPacket, FlowRecord, FlowSet, PacketKind, Protocol, TemplateRecord};
pub use rand::rngs::ThreadRng;
