use vstd::prelude::*;

use crate::mem::{Byte, Word};

verus! {

/// A vertex: its target monitor, position, packed colour, texture
/// coordinates and z-layer.
#[derive(Clone, Copy, Debug, PartialEq, Eq, Structural)]
pub struct Vector {
    pub monitor: Byte,
    pub x: Word,
    pub y: Word,
    pub c: Word,
    pub tx: Word,
    pub ty: Word,
    pub z: Byte,
}

impl Vector {
    /// A vertex; a missing monitor is monitor 0, a missing colour is all
    /// ones (opaque white), missing texture coordinates and layer are 0.
    pub fn new(
        monitor: Option<Byte>,
        x: Word,
        y: Word,
        c: Option<Word>,
        tx: Option<Word>,
        ty: Option<Word>,
        z: Option<Byte>,
    ) -> (r: Vector)
        ensures
            r == (Vector {
                monitor: match monitor {
                    Some(m) => m,
                    None => 0,
                },
                x,
                y,
                c: match c {
                    Some(v) => v,
                    None => 0xffff,
                },
                tx: match tx {
                    Some(v) => v,
                    None => 0,
                },
                ty: match ty {
                    Some(v) => v,
                    None => 0,
                },
                z: match z {
                    Some(v) => v,
                    None => 0,
                },
            }),
    {
        Vector {
            monitor: match monitor {
                Some(m) => m,
                None => 0x0,
            },
            x,
            y,
            c: match c {
                Some(v) => v,
                None => 0b1111_1111_1111_1111,
            },
            tx: match tx {
                Some(v) => v,
                None => 0x0,
            },
            ty: match ty {
                Some(v) => v,
                None => 0x0,
            },
            z: match z {
                Some(v) => v,
                None => 0x00,
            },
        }
    }
}

} // verus!
