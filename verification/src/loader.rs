pub mod exefs;
pub mod exheader;
pub mod ncch;
pub mod ncsd;
pub mod process;
pub mod romfs;

pub use exefs::{ExeFs, ExeFsFile};
pub use exheader::ExHeader;
pub use ncch::{parse_ncch_program, NcchProgram, RomRegion};
pub use ncsd::{NcsdPartition, RomImage};
pub use process::{
    install_process_image, parse_process_image, parse_process_image_from_rom, LoadedProcessImage,
    ProcessImage, ProcessSegment, TitleImageLayout,
};
pub use romfs::{normalize_path, RomFs, RomFsFile};
