use vstd::prelude::*;

use crate::fourcc::{le_bytes, FourCC, Fraction};

verus! {

/// Type tag of a record that holds one discrete interval.
pub const FRMIVAL_TYPE_DISCRETE: u32 = 1;
/// Type tag of a record that holds a continuous range of intervals.
pub const FRMIVAL_TYPE_CONTINUOUS: u32 = 2;
/// Type tag of a record that holds a stepped range of intervals.
pub const FRMIVAL_TYPE_STEPWISE: u32 = 3;

/// A range of frame intervals.
#[derive(Clone, Copy, Debug, PartialEq, Eq, Structural)]
pub struct Stepwise {
    /// Minimum frame interval [s].
    pub min: Fraction,
    /// Maximum frame interval [s].
    pub max: Fraction,
    /// Frame interval step size [s].
    pub step: Fraction,
}

/// The intervals that one record describes.
#[derive(Clone, Copy, Debug, PartialEq, Eq, Structural)]
pub enum FrameIntervalEnum {
    Discrete(Fraction),
    Stepwise(Stepwise),
}

/// Why a frame interval record could not be read.
#[derive(Clone, Copy, Debug, PartialEq, Eq, Structural)]
pub enum FrameIntervalError {
    /// The record's type tag is none of the known ones; it carries the tag.
    UnknownIntervalType(u32),
}

/// A frame interval record as the device enumerates it. The device overlays the discrete
/// fraction and the stepwise range; both are given here, and the type tag says which counts.
#[derive(Clone, Copy, Debug)]
pub struct FrameIntervalRecord {
    pub index: u32,
    pub pixel_format: u32,
    pub width: u32,
    pub height: u32,
    pub typ: u32,
    pub discrete: Fraction,
    pub stepwise: Stepwise,
}

/// The intervals a record describes, or its unknown type tag.
pub open spec fn interval_of(desc: FrameIntervalRecord) -> Result<
    FrameIntervalEnum,
    FrameIntervalError,
> {
    if desc.typ == FRMIVAL_TYPE_DISCRETE {
        Ok(FrameIntervalEnum::Discrete(desc.discrete))
    } else if desc.typ == FRMIVAL_TYPE_CONTINUOUS || desc.typ == FRMIVAL_TYPE_STEPWISE {
        Ok(FrameIntervalEnum::Stepwise(desc.stepwise))
    } else {
        Err(FrameIntervalError::UnknownIntervalType(desc.typ))
    }
}

impl FrameIntervalEnum {
    /// Reads the intervals of a record by its type tag.
    pub fn try_from(desc: FrameIntervalRecord) -> (r: Result<FrameIntervalEnum, FrameIntervalError>)
        ensures
            r == interval_of(desc),
    {
        match desc.typ {
            FRMIVAL_TYPE_DISCRETE => Ok(FrameIntervalEnum::Discrete(desc.discrete)),
            FRMIVAL_TYPE_CONTINUOUS | FRMIVAL_TYPE_STEPWISE => Ok(
                FrameIntervalEnum::Stepwise(desc.stepwise),
            ),
            typ => Err(FrameIntervalError::UnknownIntervalType(typ)),
        }
    }
}

/// Frame interval description as the device enumerates it.
#[derive(Clone, Copy, Debug)]
pub struct FrameInterval {
    pub index: u32,
    pub fourcc: FourCC,
    pub width: u32,
    pub height: u32,
    pub typ: u32,
    pub interval: FrameIntervalEnum,
}

impl FrameInterval {
    /// Reads a whole record; fails exactly when its type tag is unknown.
    pub fn try_from(desc: FrameIntervalRecord) -> (r: Result<FrameInterval, FrameIntervalError>)
        ensures
            interval_of(desc) is Err ==> r == Err::<FrameInterval, FrameIntervalError>(
                interval_of(desc)->Err_0,
            ),
            interval_of(desc) is Ok ==> r is Ok && ({
                let fi = r->Ok_0;
                &&& fi.index == desc.index
                &&& fi.fourcc.repr@ == le_bytes(desc.pixel_format)
                &&& fi.width == desc.width
                &&& fi.height == desc.height
                &&& fi.typ == desc.typ
                &&& fi.interval == interval_of(desc)->Ok_0
            }),
    {
        let interval = match FrameIntervalEnum::try_from(desc) {
            Ok(i) => i,
            Err(e) => {
                return Err(e);
            },
        };
        Ok(
            FrameInterval {
                index: desc.index,
                fourcc: FourCC::from_code(desc.pixel_format),
                width: desc.width,
                height: desc.height,
                typ: desc.typ,
                interval,
            },
        )
    }
}

} // verus!
