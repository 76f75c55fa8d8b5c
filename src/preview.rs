use vstd::prelude::*;
use vstd::string::StrSliceExecFns;
use crate::bitmap::{Bitmap, decoded_of, thumbnail_of, decode, fit_inside};
use crate::exif::{ParseError, orientation_of, find_orientation};
use crate::orientation::{steps_of, transformed_all, apply_orientation};
use crate::scaling::{
    ScaleError,
    fit_result,
    fit_to_region,
    pixel_bound,
    pixel_bound_result,
};

verus! {

/// Why no preview could be prepared.
#[derive(Clone, Copy, Debug, PartialEq, Eq, Structural)]
pub enum PreviewError {
    /// The codec could not decode the file.
    Decode,
    /// The file carries an EXIF marker, but the TIFF block after it is malformed.
    Parse(ParseError),
    /// The terminal geometry admits no display size.
    Scale(ScaleError),
}

/// The extension (already lower case) names a JPEG file.
pub open spec fn is_jpeg(ext: Seq<char>) -> bool {
    ext == "jpg"@ || ext == "jpeg"@
}

/// The bitmap `b` turned upright as the file's metadata says; only JPEG files are read
/// for it.
pub open spec fn upright(file: Seq<u8>, jpeg: bool, b: (nat, nat, Seq<u8>)) -> Result<
    (nat, nat, Seq<u8>),
    PreviewError,
> {
    if !jpeg {
        Ok(b)
    } else {
        match orientation_of(file) {
            Err(e) => Err(PreviewError::Parse(e)),
            Ok(None) => Ok(b),
            Ok(Some(v)) => Ok(transformed_all(steps_of(v), b)),
        }
    }
}

/// The upright bitmap `o` resampled, where the fit asks for it, to the pixel size of its
/// cells.
pub open spec fn scaled(
    o: (nat, nat, Seq<u8>),
    terminal_cells: (u16, u16),
    window_px: (u16, u16),
    region_origin_x: u16,
) -> Result<(nat, nat, Seq<u8>), PreviewError> {
    match fit_result((o.0 as u32, o.1 as u32), terminal_cells, window_px, region_origin_x) {
        Err(e) => Err(PreviewError::Scale(e)),
        Ok(fit) => if !fit.rescale_needed {
            Ok(o)
        } else {
            match pixel_bound_result(fit, terminal_cells, window_px) {
                Err(e) => Err(PreviewError::Scale(e)),
                Ok(bound) => if 1 <= bound.0 <= o.0 && 1 <= bound.1 <= o.1 {
                    let t = thumbnail_of((o.0 as u32, o.1 as u32, o.2), bound);
                    Ok((t.0 as nat, t.1 as nat, t.2))
                } else {
                    Ok(o)
                },
            }
        },
    }
}

/// The bitmap to show for a file: decoded, turned upright, then resampled to the size it
/// takes on the terminal.
pub open spec fn preview_of(
    file: Seq<u8>,
    ext: Seq<char>,
    terminal_cells: (u16, u16),
    window_px: (u16, u16),
    region_origin_x: u16,
) -> Result<(nat, nat, Seq<u8>), PreviewError> {
    match decoded_of(file) {
        None => Err(PreviewError::Decode),
        Some(d) => match upright(file, is_jpeg(ext), (d.0 as nat, d.1 as nat, d.2)) {
            Err(e) => Err(e),
            Ok(o) => scaled(o, terminal_cells, window_px, region_origin_x),
        },
    }
}

/// Whether the extension (already lower case) names a JPEG file.
pub fn is_jpeg_extension(ext: &str) -> (r: bool)
    ensures
        r == is_jpeg(ext@),
{
    proof {
        reveal_strlit("jpg");
        reveal_strlit("jpeg");
    }
    let n = ext.unicode_len();
    if n == 3 {
        let r = ext.get_char(0) == 'j' && ext.get_char(1) == 'p' && ext.get_char(2) == 'g';
        assert(r ==> ext@ =~= "jpg"@);
        r
    } else if n == 4 {
        let r = ext.get_char(0) == 'j' && ext.get_char(1) == 'p' && ext.get_char(2) == 'e'
            && ext.get_char(3) == 'g';
        assert(r ==> ext@ =~= "jpeg"@);
        r
    } else {
        false
    }
}

/// Turns a decoded bitmap upright and resamples it to the size it takes on the terminal.
pub fn orient_and_scale(
    bitmap: Bitmap,
    file_bytes: &[u8],
    jpeg: bool,
    terminal_cells: (u16, u16),
    window_px: (u16, u16),
    region_origin_x: u16,
) -> (r: Result<Bitmap, PreviewError>)
    requires
        bitmap.wf(),
    ensures
        match r {
            Ok(b) => b.wf() && upright(file_bytes@, jpeg, bitmap@) is Ok && scaled(
                upright(file_bytes@, jpeg, bitmap@)->Ok_0,
                terminal_cells,
                window_px,
                region_origin_x,
            ) == Ok::<(nat, nat, Seq<u8>), PreviewError>(b@),
            Err(e) => match upright(file_bytes@, jpeg, bitmap@) {
                Err(e2) => e == e2,
                Ok(o) => scaled(o, terminal_cells, window_px, region_origin_x) == Err::<
                    (nat, nat, Seq<u8>),
                    PreviewError,
                >(e),
            },
        },
{
    let mut img = bitmap;
    if jpeg {
        match find_orientation(file_bytes) {
            Err(e) => {
                return Err(PreviewError::Parse(e));
            },
            Ok(None) => {},
            Ok(Some(v)) => {
                img = apply_orientation(img, v);
            },
        }
    }
    let fit = match fit_to_region((img.width, img.height), terminal_cells, window_px, region_origin_x) {
        Err(e) => {
            return Err(PreviewError::Scale(e));
        },
        Ok(f) => f,
    };
    if !fit.rescale_needed {
        return Ok(img);
    }
    let bound = match pixel_bound(fit, terminal_cells, window_px) {
        Err(e) => {
            return Err(PreviewError::Scale(e));
        },
        Ok(b) => b,
    };
    Ok(fit_inside(img, bound.0, bound.1))
}

/// Prepares the bitmap to show for a file's bytes: decodes them, turns JPEG files upright
/// as their EXIF orientation says, and resamples the result to the pixel size of the cells
/// it takes at column `region_origin_x`.
pub fn prepare_preview(
    file_bytes: &[u8],
    ext: &str,
    terminal_cells: (u16, u16),
    window_px: (u16, u16),
    region_origin_x: u16,
) -> (r: Result<Bitmap, PreviewError>)
    ensures
        match r {
            Ok(b) => b.wf() && preview_of(file_bytes@, ext@, terminal_cells, window_px, region_origin_x)
                == Ok::<(nat, nat, Seq<u8>), PreviewError>(b@),
            Err(e) => preview_of(file_bytes@, ext@, terminal_cells, window_px, region_origin_x)
                == Err::<(nat, nat, Seq<u8>), PreviewError>(e),
        },
{
    let bitmap = match decode(file_bytes) {
        None => {
            return Err(PreviewError::Decode);
        },
        Some(b) => b,
    };
    let jpeg = is_jpeg_extension(ext);
    orient_and_scale(bitmap, file_bytes, jpeg, terminal_cells, window_px, region_origin_x)
}

} // verus!
