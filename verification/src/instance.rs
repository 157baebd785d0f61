//! A decoded stagedef together with information about the file it came
//! from.

use vstd::prelude::*;

use crate::common::DecodeError;
use crate::common::Endianness;
use crate::common::Game;
use crate::parser::spec_stagedef;
use crate::parser::FILE_HEADER_FIXED_REGION;
use crate::parser::StageDefReader;
use crate::stagedef::StageDef;
use crate::viewer::FileHandleWrapper;

verus! {

/// Contains a [`StageDef`], as well as extra information about the file.
///
/// By default, this will be a big-endian SMB2 stagedef.
pub struct StageDefInstance {
    pub stagedef: StageDef,
    pub game: Game,
    pub endianness: Endianness,
    pub is_active: bool,
    pub file: FileHandleWrapper,
}

impl StageDefInstance {
    /// The name of the file this instance was decoded from.
    pub open spec fn spec_file_name(&self) -> Seq<char> {
        self.file.file_name@
    }

    /// Decodes the buffer of `file` as a big-endian SMB2 stagedef.
    pub fn new(file: FileHandleWrapper) -> (r: Result<Self, DecodeError>)
        ensures
            match r {
                Ok(inst) => {
                    &&& file.buffer@.len() >= FILE_HEADER_FIXED_REGION
                    &&& inst.stagedef@ == spec_stagedef(file.buffer@, Endianness::BigEndian)
                    &&& inst.game == Game::SMB2
                    &&& inst.endianness == Endianness::BigEndian
                    &&& inst.is_active
                    &&& inst.spec_file_name() == file.file_name@
                },
                Err(er) => er == DecodeError::TruncatedHeader && file.buffer@.len()
                    < FILE_HEADER_FIXED_REGION,
            },
    {
        let game = Game::SMB2;
        let endianness = Endianness::BigEndian;
        let buffer_copy = copy_buffer(&file.buffer);
        let sd_reader = StageDefReader::new(buffer_copy, game);
        let stagedef = match sd_reader.read_stagedef(endianness) {
            Ok(sd) => sd,
            Err(er) => {
                return Err(er);
            },
        };
        Ok(Self { stagedef, game, endianness, file, is_active: true })
    }

    pub fn get_filename(&self) -> (r: String)
        ensures
            r@ == self.spec_file_name(),
    {
        self.file.file_name.clone()
    }
}

/// Byte-for-byte copy of a buffer.
fn copy_buffer(buf: &Vec<u8>) -> (r: Vec<u8>)
    ensures
        r@ == buf@,
{
    let mut out: Vec<u8> = Vec::new();
    let mut i: usize = 0;
    while i < buf.len()
        invariant
            i <= buf@.len(),
            out@ == buf@.subrange(0, i as int),
        decreases buf@.len() - i,
    {
        out.push(buf[i]);
        proof {
            assert(buf@.subrange(0, i + 1) =~= buf@.subrange(0, i as int).push(buf@[i as int]));
        }
        i = i + 1;
    }
    proof {
        assert(buf@.subrange(0, buf@.len() as int) =~= buf@);
    }
    out
}

} // verus!
