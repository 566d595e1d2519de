use vstd::prelude::*;
use crate::pixel::{Attractor, PixelResult};

verus! {

/// The number of colours in the attractor palette: one for pixels that reached
/// no root, then one for each root of the largest supported degree.
pub const PALETTE_SIZE: usize = 8;

/// The brightest grey level of the convergence picture.
pub const GRAY_CAP: usize = 255;

/// The colour at `index` of the attractor palette. Index 0 is for pixels that
/// reached no root; index `k + 1` is for root `k`.
pub open spec fn palette_rgb(index: nat) -> (u8, u8, u8) {
    if index == 1 {
        (255, 0, 0)
    } else if index == 2 {
        (0, 255, 255)
    } else if index == 3 {
        (0, 0, 0)
    } else if index == 4 {
        (255, 145, 0)
    } else if index == 5 {
        (255, 0, 255)
    } else if index == 6 {
        (0, 125, 255)
    } else if index == 7 {
        (255, 255, 0)
    } else {
        (128, 128, 128)
    }
}

/// The palette index of an attractor: `k + 1` for a root `k` that the palette
/// has a colour for, 0 for everything else.
pub open spec fn palette_slot(a: Attractor) -> nat {
    match a {
        Attractor::Root(k) => if k + 1 < PALETTE_SIZE {
            (k + 1) as nat
        } else {
            0
        },
        _ => 0,
    }
}

/// The grey level of a pixel that took `iterations` steps: the count, capped
/// at 255.
pub open spec fn gray_level(iterations: nat) -> u8 {
    if iterations < GRAY_CAP {
        iterations as u8
    } else {
        GRAY_CAP as u8
    }
}

/// Component `k` (0 red, 1 green, 2 blue) of a colour.
pub open spec fn component(c: (u8, u8, u8), k: int) -> u8 {
    if k == 0 {
        c.0
    } else if k == 1 {
        c.1
    } else {
        c.2
    }
}

/// The bytes of a row of the attractor picture: three per pixel, the pixel's
/// palette colour.
pub open spec fn attractor_bytes(row: Seq<PixelResult>) -> Seq<u8> {
    Seq::new(3 * row.len(), |j: int| component(palette_rgb(palette_slot(row[j / 3].attractor)), j % 3))
}

/// The bytes of a row of the convergence picture: three per pixel, each the
/// pixel's grey level.
pub open spec fn convergence_bytes(row: Seq<PixelResult>) -> Seq<u8> {
    Seq::new(3 * row.len(), |j: int| gray_level(row[j / 3].iterations as nat))
}

/// The palette colour at `index`.
pub fn palette_color(index: usize) -> (c: (u8, u8, u8))
    ensures
        c == palette_rgb(index as nat),
{
    if index == 1 {
        (255, 0, 0)
    } else if index == 2 {
        (0, 255, 255)
    } else if index == 3 {
        (0, 0, 0)
    } else if index == 4 {
        (255, 145, 0)
    } else if index == 5 {
        (255, 0, 255)
    } else if index == 6 {
        (0, 125, 255)
    } else if index == 7 {
        (255, 255, 0)
    } else {
        (128, 128, 128)
    }
}

/// The colour of a pixel in the attractor picture.
pub fn attractor_color(a: Attractor) -> (c: (u8, u8, u8))
    ensures
        c == palette_rgb(palette_slot(a)),
{
    let index: usize = match a {
        Attractor::Root(k) => if k < PALETTE_SIZE - 1 {
            k + 1
        } else {
            0
        },
        _ => 0,
    };
    palette_color(index)
}

/// The grey level of a pixel in the convergence picture.
pub fn gray(iterations: usize) -> (g: u8)
    ensures
        g == gray_level(iterations as nat),
        g as nat <= iterations,
{
    if iterations < GRAY_CAP {
        iterations as u8
    } else {
        GRAY_CAP as u8
    }
}

/// Encodes a computed row as its two picture rows: the attractor colours and
/// the convergence grey levels, three bytes per pixel, left to right.
pub fn encode_row(row: &Vec<PixelResult>) -> (r: (Vec<u8>, Vec<u8>))
    requires
        3 * row@.len() <= usize::MAX,
    ensures
        r.0@ == attractor_bytes(row@),
        r.1@ == convergence_bytes(row@),
{
    let mut colors: Vec<u8> = Vec::new();
    let mut grays: Vec<u8> = Vec::new();
    let mut i: usize = 0;
    while i < row.len()
        invariant
            i <= row@.len(),
            3 * row@.len() <= usize::MAX,
            colors@.len() == 3 * i,
            grays@.len() == 3 * i,
            forall|j: int|
                0 <= j < 3 * i ==> colors@[j] == component(
                    palette_rgb(palette_slot(row@[j / 3].attractor)),
                    j % 3,
                ),
            forall|j: int| 0 <= j < 3 * i ==> grays@[j] == gray_level(row@[j / 3].iterations as nat),
        decreases row@.len() - i,
    {
        let p = row[i];
        let c = attractor_color(p.attractor);
        let g = gray(p.iterations);
        colors.push(c.0);
        colors.push(c.1);
        colors.push(c.2);
        grays.push(g);
        grays.push(g);
        grays.push(g);
        assert((3 * i) as int / 3 == i && (3 * i) as int % 3 == 0);
        assert((3 * i + 1) as int / 3 == i && (3 * i + 1) as int % 3 == 1);
        assert((3 * i + 2) as int / 3 == i && (3 * i + 2) as int % 3 == 2);
        i = i + 1;
    }
    assert(colors@ =~= attractor_bytes(row@));
    assert(grays@ =~= convergence_bytes(row@));
    (colors, grays)
}

} // verus!
