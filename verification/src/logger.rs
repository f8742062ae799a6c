//! The log: which messages pass its filter, and what is written to the
//! serial port for one that does.

use crate::conout::{byte_output, text_output};
use vstd::prelude::*;

verus! {

pub const LOG_LEVEL_VERBOSE: usize = 1000;

pub const LOG_LEVEL_INFO: usize = 100;

pub const LOG_LEVEL_WARN: usize = 10;

pub const LOG_LEVEL_ERROR: usize = 1;

pub const LOG_LEVEL_NONE: usize = 0;

pub const LOG_MASK_COMMON: u64 = 0x1;

pub const LOG_MASK_PROTOCOL: u64 = 0x2;

pub const LOG_MASK_MEMORY: u64 = 0x4;

pub const LOG_MASK_EVENT: u64 = 0x8;

pub const LOG_MASK_IMAGE: u64 = 0x10;

pub const LOG_MASK_VARIABLE: u64 = 0x10000;

pub const LOG_MASK_CONOUT: u64 = 0x1000000;

pub const LOG_MASK_CONIN: u64 = 0x2000000;

pub const LOG_MASK_BLOCK_IO: u64 = 0x100000000;

pub const LOG_MASK_FILE_SYSTEM: u64 = 0x200000000;

pub const LOG_MASK_ALL: u64 = 0xFFFFFFFFFFFFFFFF;

/// The filter of the log: the highest level and the subjects that pass.
#[derive(Clone, Copy, Debug, PartialEq, Eq, Structural)]
pub struct Logger {
    pub level: usize,
    pub mask: u64,
}

/// Whether a message of level `level` on the subjects `mask` passes the
/// filter: its level is no higher than the filter's and it shares a
/// subject with it.
pub open spec fn passes(logger: Logger, level: usize, mask: u64) -> bool {
    level <= logger.level && (mask & logger.mask) != 0
}

impl Logger {
    /// The filter that lets everything pass.
    pub fn new() -> (logger: Logger)
        ensures
            logger == (Logger { level: LOG_LEVEL_VERBOSE, mask: LOG_MASK_ALL }),
    {
        Logger { level: LOG_LEVEL_VERBOSE, mask: LOG_MASK_ALL }
    }

    /// The bytes written to the port for `byte`.
    pub fn write_byte(&self, byte: u8) -> (output: Vec<u8>)
        ensures
            output@ == byte_output(byte),
    {
        crate::conout::write_byte(byte)
    }

    /// The bytes written to the port for `s`.
    pub fn write_string(&self, s: &str) -> (output: Vec<u8>)
        ensures
            output@ == text_output(s@),
    {
        crate::conout::write_string(s)
    }

    pub fn get_level(&self) -> (level: usize)
        ensures
            level == self.level,
    {
        self.level
    }

    pub fn set_level(&mut self, level: usize)
        ensures
            *final(self) == (Logger { level, mask: old(self).mask }),
    {
        self.level = level;
    }

    pub fn get_mask(&self) -> (mask: u64)
        ensures
            mask == self.mask,
    {
        self.mask
    }

    pub fn set_mask(&mut self, mask: u64)
        ensures
            *final(self) == (Logger { level: old(self).level, mask }),
    {
        self.mask = mask;
    }
}

/// The bytes written to the port for the message `text`.
pub fn _log(logger: &Logger, text: &str) -> (output: Vec<u8>)
    ensures
        output@ == text_output(text@),
{
    logger.write_string(text)
}

/// The bytes written to the port for the message `text` of level `level`
/// on the subjects `mask`: none if the filter holds it back.
pub fn _log_ex(logger: &Logger, level: usize, mask: u64, text: &str) -> (output: Vec<u8>)
    ensures
        output@ == if passes(*logger, level, mask) {
            text_output(text@)
        } else {
            Seq::<u8>::empty()
        },
{
    if level > logger.get_level() {
        return Vec::new();
    }
    if (mask & logger.get_mask()) == 0 {
        return Vec::new();
    }
    _log(logger, text)
}

} // verus!
