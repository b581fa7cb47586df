pub mod mbc;
pub mod mbc0;
pub mod mbc1;

pub use self::mbc::{get_ram_size, MbcView, MBC};
pub use self::mbc0::MBC0;
pub use self::mbc1::{BankMode, MBC1View, MBC1};
