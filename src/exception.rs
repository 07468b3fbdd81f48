//! Choice of the exception vector table to install on a core.

use vstd::prelude::*;

verus! {

/// An AArch64 exception level that has its own vector table.
#[derive(Clone, Copy, Debug, PartialEq, Eq, Structural)]
pub enum ExceptionLevel {
    El1,
    El2,
    El3,
}

/// The build-time choice of exception level.
#[derive(Clone, Copy, Debug, PartialEq, Eq, Structural)]
pub enum LevelSelection {
    /// No level is selected: it is read from `CurrentEL` at run time.
    Detect,
    /// Only this level's table is ever installed.
    Fixed(ExceptionLevel),
}

/// Why a configuration or a run-time readout admits no vector table.
#[derive(Clone, Copy, Debug, PartialEq, Eq, Structural)]
pub enum VectorError {
    /// More than one exception level was selected at build time.
    ConflictingLevels,
    /// `CurrentEL` held this level, which has no vector table.
    UnexpectedLevel(u64),
}

/// How the exception vectors of a build are set up.
#[derive(Clone, Copy, Debug, PartialEq, Eq, Structural)]
pub struct VectorConfig {
    /// Whether a vector table is compiled in at all.
    pub exceptions: bool,
    /// Which table is installed.
    pub selection: LevelSelection,
}

/// The level numbers 1, 2 and 3.
pub open spec fn level_number(level: ExceptionLevel) -> u64 {
    match level {
        ExceptionLevel::El1 => 1,
        ExceptionLevel::El2 => 2,
        ExceptionLevel::El3 => 3,
    }
}

/// The exception-level field of a `CurrentEL` value: bits 3 and 2.
pub open spec fn current_el_field(current_el: u64) -> u64 {
    (current_el / 4) % 4
}

/// How many of the three level switches are on.
pub open spec fn selected_count(el1: bool, el2: bool, el3: bool) -> nat {
    (if el1 { 1nat } else { 0nat }) + (if el2 { 1nat } else { 0nat }) + (if el3 { 1nat } else { 0nat })
}

/// The level that the switches select, when exactly one is on.
pub open spec fn single_selection(el1: bool, el2: bool, el3: bool) -> LevelSelection {
    if el1 {
        LevelSelection::Fixed(ExceptionLevel::El1)
    } else if el2 {
        LevelSelection::Fixed(ExceptionLevel::El2)
    } else if el3 {
        LevelSelection::Fixed(ExceptionLevel::El3)
    } else {
        LevelSelection::Detect
    }
}

impl ExceptionLevel {
    /// The level with number `n`, if it is 1, 2 or 3.
    pub fn from_number(n: u64) -> (r: Option<ExceptionLevel>)
        ensures
            r matches Some(level) <==> 1 <= n <= 3,
            r matches Some(level) ==> level_number(level) == n,
    {
        if n == 1 {
            Some(ExceptionLevel::El1)
        } else if n == 2 {
            Some(ExceptionLevel::El2)
        } else if n == 3 {
            Some(ExceptionLevel::El3)
        } else {
            None
        }
    }

    /// The level that a `CurrentEL` readout reports, if it has a vector table.
    pub fn from_current_el(current_el: u64) -> (r: Option<ExceptionLevel>)
        ensures
            r matches Some(level) <==> 1 <= current_el_field(current_el) <= 3,
            r matches Some(level) ==> level_number(level) == current_el_field(current_el),
    {
        let field = (current_el >> 2u64) & 3u64;
        assert(field == current_el_field(current_el)) by (bit_vector)
            requires field == (current_el >> 2u64) & 3u64;
        ExceptionLevel::from_number(field)
    }
}

impl VectorConfig {
    /// Builds the configuration from the build switches; at most one of the
    /// three level switches may be on.
    pub fn from_switches(exceptions: bool, el1: bool, el2: bool, el3: bool) -> (r: Result<
        VectorConfig,
        VectorError,
    >)
        ensures
            r is Err <==> selected_count(el1, el2, el3) >= 2,
            r matches Err(e) ==> e == VectorError::ConflictingLevels,
            r matches Ok(c) ==> c.exceptions == exceptions && c.selection == single_selection(
                el1,
                el2,
                el3,
            ),
    {
        if (el1 && el2) || (el1 && el3) || (el2 && el3) {
            return Err(VectorError::ConflictingLevels);
        }
        let selection = if el1 {
            LevelSelection::Fixed(ExceptionLevel::El1)
        } else if el2 {
            LevelSelection::Fixed(ExceptionLevel::El2)
        } else if el3 {
            LevelSelection::Fixed(ExceptionLevel::El3)
        } else {
            LevelSelection::Detect
        };
        Ok(VectorConfig { exceptions, selection })
    }

    /// Whether installing a table needs a readout of `CurrentEL`.
    pub fn reads_current_el(&self) -> (r: bool)
        ensures
            r == (self.exceptions && self.selection == LevelSelection::Detect),
    {
        self.exceptions && match self.selection {
            LevelSelection::Detect => true,
            LevelSelection::Fixed(_) => false,
        }
    }

    /// The vector table to install, given the `CurrentEL` readout of the core.
    /// `Ok(None)`: no table is compiled in, and none is installed. An error is
    /// fatal to the core.
    pub fn vector_table(&self, current_el: u64) -> (r: Result<Option<ExceptionLevel>, VectorError>)
        ensures
            r == vector_table_spec(*self, current_el),
    {
        if !self.exceptions {
            return Ok(None);
        }
        match self.selection {
            LevelSelection::Fixed(level) => Ok(Some(level)),
            LevelSelection::Detect => match ExceptionLevel::from_current_el(current_el) {
                Some(level) => Ok(Some(level)),
                None => {
                    let field = (current_el >> 2u64) & 3u64;
                    assert(field == current_el_field(current_el)) by (bit_vector)
                        requires field == (current_el >> 2u64) & 3u64;
                    Err(VectorError::UnexpectedLevel(field))
                },
            },
        }
    }
}

/// The table that `config` installs on a core whose `CurrentEL` reads `current_el`.
pub open spec fn vector_table_spec(config: VectorConfig, current_el: u64) -> Result<
    Option<ExceptionLevel>,
    VectorError,
> {
    if !config.exceptions {
        Ok(None)
    } else {
        match config.selection {
            LevelSelection::Fixed(level) => Ok(Some(level)),
            LevelSelection::Detect => {
                let n = current_el_field(current_el);
                if n == 1 {
                    Ok(Some(ExceptionLevel::El1))
                } else if n == 2 {
                    Ok(Some(ExceptionLevel::El2))
                } else if n == 3 {
                    Ok(Some(ExceptionLevel::El3))
                } else {
                    Err(VectorError::UnexpectedLevel(n))
                }
            },
        }
    }
}

} // verus!
