//! The defaults of the asset saver: which image file extensions it
//! processes and with which encoder parameters.
use vstd::prelude::*;

use crate::encoder::{srgb_defaults_of, BasisuEncoderParams};
use crate::formats::BasisTextureFormat;
use crate::text::chars_of;

verus! {

/// Whether the saver processes files with the extension `ext`: all image
/// extensions but the ones that already hold GPU textures, `ktx2` and `dds`.
pub open spec fn processed_extension(ext: Seq<char>) -> bool {
    ext != "ktx2"@ && ext != "dds"@
}

/// The extensions that the saver processes by default, in the order in
/// which the image loader lists them.
pub open spec fn processor_extensions_of(image_extensions: Seq<Seq<char>>) -> Seq<Seq<char>> {
    image_extensions.filter(|e: Seq<char>| processed_extension(e))
}

/// Whether `ext` is `ktx2` or `dds`.
fn is_gpu_texture_extension(ext: &str) -> (r: bool)
    ensures
        r == !processed_extension(ext@),
{
    proof {
        reveal_strlit("ktx2");
        reveal_strlit("dds");
    }
    let c = chars_of(ext);
    if c.len() == 4 && c[0] == 'k' && c[1] == 't' && c[2] == 'x' && c[3] == '2' {
        assert(ext@ =~= "ktx2"@);
        true
    } else if c.len() == 3 && c[0] == 'd' && c[1] == 'd' && c[2] == 's' {
        assert(ext@ =~= "dds"@);
        true
    } else {
        proof {
            if ext@ == "ktx2"@ {
                assert(c@[3] == '2');
            }
            if ext@ == "dds"@ {
                assert(c@[2] == 's');
            }
        }
        false
    }
}

/// The extensions that the saver processes by default (see
/// [`processor_extensions_of`]).
pub fn processor_extensions<'a>(image_extensions: &[&'a str]) -> (r: Vec<&'a str>)
    ensures
        r@.map_values(|e: &str| e@) == processor_extensions_of(
            image_extensions@.map_values(|e: &str| e@),
        ),
{
    let ghost all = image_extensions@.map_values(|e: &str| e@);
    let mut out: Vec<&'a str> = Vec::new();
    let mut i: usize = 0;
    while i < image_extensions.len()
        invariant
            i <= image_extensions@.len(),
            all == image_extensions@.map_values(|e: &str| e@),
            out@.map_values(|e: &str| e@) == processor_extensions_of(all.take(i as int)),
        decreases image_extensions@.len() - i,
    {
        let ghost before = out@.map_values(|e: &str| e@);
        proof {
            let t = all.take(i as int + 1);
            reveal(Seq::filter);
            assert(t.drop_last() =~= all.take(i as int));
            assert(t.last() == image_extensions@[i as int]@);
        }
        let ext = image_extensions[i];
        if !is_gpu_texture_extension(ext) {
            out.push(ext);
            proof {
                assert(out@.map_values(|e: &str| e@) =~= before.push(ext@));
            }
        }
        i = i + 1;
    }
    proof {
        assert(all.take(image_extensions@.len() as int) =~= all);
    }
    out
}

/// The encoder parameters that the saver uses when its settings give none:
/// the sRGB defaults for XUASTC LDR 4x4.
pub fn default_encoder_params() -> (r: BasisuEncoderParams)
    ensures
        r == srgb_defaults_of(BasisTextureFormat::XuastcLdr4x4),
{
    BasisuEncoderParams::new_with_srgb_defaults(BasisTextureFormat::XuastcLdr4x4)
}

/// The saver of textures as Basis Universal KTX2 files.
#[derive(Debug, Clone, Copy, PartialEq, Eq, Structural)]
pub struct BasisuSaver {
    /// The encoder parameters of a save whose settings give none.
    pub default_encoder_params: BasisuEncoderParams,
}

/// The settings of saving one texture.
#[derive(Debug, Clone, Copy, PartialEq, Eq, Structural)]
pub struct BasisuSaverSettings {
    /// The encoder parameters; when `None`, the saver's defaults.
    pub encoder_params: Option<BasisuEncoderParams>,
}

impl BasisuSaver {
    /// The encoder parameters of a save with `settings`.
    pub fn encoder_params(&self, settings: &BasisuSaverSettings) -> (r: BasisuEncoderParams)
        ensures
            r == match settings.encoder_params {
                Some(p) => p,
                None => self.default_encoder_params,
            },
    {
        match settings.encoder_params {
            Some(p) => p,
            None => self.default_encoder_params,
        }
    }
}

} // verus!
