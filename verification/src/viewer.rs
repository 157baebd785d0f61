//! State carried by a viewer shell around the decoder: loaded file
//! contents and the file-type and widget-state tags the shell displays.

use vstd::prelude::*;

verus! {

/// The state of a central widget, used to display a message indicating the
/// loading status.
#[derive(Clone, Copy, Debug, PartialEq, Eq, Structural)]
pub enum CentralWidgetState {
    NoStagedefLoaded,
    Loading,
    StagedefLoaded,
}

impl Default for CentralWidgetState {
    fn default() -> (r: Self)
        ensures
            r == CentralWidgetState::NoStagedefLoaded,
    {
        CentralWidgetState::NoStagedefLoaded
    }
}

/// Which type of file is expected from a file picker.
#[derive(Clone, Copy, Debug, PartialEq, Eq, Structural)]
pub enum MkbFileType {
    StagedefType,
    WsModConfigType,
}

impl Default for MkbFileType {
    fn default() -> (r: Self)
        ensures
            r == MkbFileType::StagedefType,
    {
        MkbFileType::StagedefType
    }
}

impl MkbFileType {
    /// The file-dialog filter of a file type: a display label and the file
    /// extensions it admits.
    pub fn get_rfd_extension_filter(filter: &MkbFileType) -> (r: (&'static str, Vec<
        &'static str,
    >))
        ensures
            filter == MkbFileType::StagedefType ==> r.1@.len() == 2,
            filter == MkbFileType::WsModConfigType ==> r.1@.len() == 1,
    {
        match filter {
            MkbFileType::StagedefType => {
                let mut exts: Vec<&'static str> = Vec::new();
                exts.push("lz");
                exts.push("lz.raw");
                ("Stagedef files", exts)
            },
            MkbFileType::WsModConfigType => {
                let mut exts: Vec<&'static str> = Vec::new();
                exts.push("txt");
                ("Workshop Mod config files", exts)
            },
        }
    }
}

/// The contents, file name, and type of a loaded file, held in memory so
/// that the decoder works over a plain buffer.
#[derive(Debug)]
pub struct FileHandleWrapper {
    pub buffer: Vec<u8>,
    pub file_name: String,
    pub file_type: MkbFileType,
}

impl FileHandleWrapper {
    pub fn new(buffer: Vec<u8>, file_name: String, file_type: MkbFileType) -> (r: Self)
        ensures
            r.buffer@ == buffer@,
            r.file_name@ == file_name@,
            r.file_type == file_type,
    {
        FileHandleWrapper { buffer, file_name, file_type }
    }

    /// The same handle with its contents replaced by `buffer`.
    pub fn with_buffer(self, buffer: Vec<u8>) -> (r: FileHandleWrapper)
        ensures
            r.buffer@ == buffer@,
            r.file_name@ == self.file_name@,
            r.file_type == self.file_type,
    {
        FileHandleWrapper { buffer, ..self }
    }
}

} // verus!
