//! A transcoder that is created empty and then prepared for one texture at
//! a time: it owns the C allocation that holds the texture's bytes and the
//! handle of the opened KTX2 data, and keeps the texture's info once it is
//! prepared.
use vstd::prelude::*;

use crate::formats::{TranscodeTargetFormat, BTF_TOTAL_FORMATS};
use crate::transcoder::{
    depth_fits, header_info, info_of_header, plan_of, plan_transcode_of, wgpu_format_of, ChannelType,
    Ktx2Header, SupportedTextureCompression, TranscodeInfo, TranscodePlan,
};

verus! {

/// Errors of preparing and transcoding a texture.
#[derive(Debug, Clone, Copy, PartialEq, Eq, Structural)]
pub enum BasisuTranscodeError {
    /// Failed to load ktx2 data, likely the input data isn't valid.
    LoadKtx2DataFailed,
    /// The transcode target is not supported for this texture.
    UnsupportedTranscodeTarget,
    /// Transcoding was asked for before a texture was prepared.
    TranscodingBeforePrepared,
    /// `bt_ktx2_start_transcoding` failed.
    BtStartTranscodingFailed,
    /// `bt_ktx2_transcode_image_level` failed.
    BtTranscodeImageLevelFailed,
}

/// A transcoder for one texture at a time.
pub struct BasisuTranscoder {
    data_ptr: u64,
    ktx2_handle: u64,
    info: Option<TranscodeInfo>,
}

/// The state of a transcoder: the C allocation of the texture's bytes, the
/// handle of the opened data (0 when there is none) and the prepared info.
pub struct TranscoderState {
    /// The C allocation of the texture's bytes; 0 when there is none.
    pub data_ptr: u64,
    /// The handle of the opened data; 0 when there is none.
    pub ktx2_handle: u64,
    /// The info of the prepared texture.
    pub info: Option<TranscodeInfo>,
}

impl View for BasisuTranscoder {
    type V = TranscoderState;

    closed spec fn view(&self) -> TranscoderState {
        TranscoderState { data_ptr: self.data_ptr, ktx2_handle: self.ktx2_handle, info: self.info }
    }
}

/// What preparing a texture leads to: the error, or the info of the
/// prepared texture. `ktx2_handle` is what opening the data gave (0 when it
/// failed) and `header` what the opened data reports once transcoding has
/// started (`None` when starting failed).
pub open spec fn prepare_outcome(
    ktx2_handle: u64,
    header: Option<Ktx2Header>,
    s: SupportedTextureCompression,
    hint: ChannelType,
) -> Result<TranscodeInfo, BasisuTranscodeError> {
    if ktx2_handle == 0 {
        Err(BasisuTranscodeError::LoadKtx2DataFailed)
    } else {
        match header {
            None => Err(BasisuTranscodeError::BtStartTranscodingFailed),
            Some(h) => Ok(header_info(h, s, hint)),
        }
    }
}

impl BasisuTranscoder {
    /// A transcoder with nothing prepared.
    pub fn new() -> (r: Self)
        ensures
            r@.data_ptr == 0,
            r@.ktx2_handle == 0,
            r@.info is None,
    {
        BasisuTranscoder { data_ptr: 0, ktx2_handle: 0, info: None }
    }

    /// Gives up the C allocation and the handle, which the caller frees and
    /// closes where they are not 0; the prepared info stays.
    pub fn take_resources(&mut self) -> (r: (u64, u64))
        ensures
            r == (old(self)@.data_ptr, old(self)@.ktx2_handle),
            final(self)@.data_ptr == 0,
            final(self)@.ktx2_handle == 0,
            final(self)@.info == old(self)@.info,
    {
        let r = (self.data_ptr, self.ktx2_handle);
        self.data_ptr = 0;
        self.ktx2_handle = 0;
        r
    }

    /// Records the outcome of preparing a texture whose bytes were copied
    /// to `data_ptr` (see [`prepare_outcome`]). On success the transcoder
    /// owns the allocation and the handle and keeps the info; on failure it
    /// is left as it was, and the caller frees what it allocated.
    pub fn prepare(
        &mut self,
        data_ptr: u64,
        ktx2_handle: u64,
        header: Option<Ktx2Header>,
        supported_compressed_formats: SupportedTextureCompression,
        channel_type_hint: ChannelType,
    ) -> (r: Result<TranscodeInfo, BasisuTranscodeError>)
        requires
            header matches Some(h) ==> h.basis_format < BTF_TOTAL_FORMATS,
        ensures
            r == prepare_outcome(ktx2_handle, header, supported_compressed_formats, channel_type_hint),
            r is Err ==> final(self)@ == old(self)@,
            r matches Ok(info) ==> final(self)@ == (TranscoderState {
                data_ptr,
                ktx2_handle,
                info: Some(info),
            }),
    {
        if ktx2_handle == 0 {
            return Err(BasisuTranscodeError::LoadKtx2DataFailed);
        }
        let h = match header {
            None => return Err(BasisuTranscodeError::BtStartTranscodingFailed),
            Some(h) => h,
        };
        let info = info_of_header(&h, supported_compressed_formats, channel_type_hint);
        self.data_ptr = data_ptr;
        self.ktx2_handle = ktx2_handle;
        self.info = Some(info);
        Ok(info)
    }

    /// The info of the prepared texture, if one is prepared.
    pub fn get_prepared_info(&self) -> (r: Option<TranscodeInfo>)
        ensures
            r == self@.info,
    {
        self.info
    }

    /// The handle and the info of the prepared texture, for a transcode to
    /// `transcode_target` or, when it is `None`, to the preferred target;
    /// an error when nothing is prepared.
    pub fn prepared_target(&self, transcode_target: Option<TranscodeTargetFormat>) -> (r: Result<
        (u64, TranscodeInfo, TranscodeTargetFormat),
        BasisuTranscodeError,
    >)
        ensures
            self@.data_ptr == 0 || self@.ktx2_handle == 0 || self@.info is None <==> r
                == Err::<(u64, TranscodeInfo, TranscodeTargetFormat), BasisuTranscodeError>(
                BasisuTranscodeError::TranscodingBeforePrepared,
            ),
            r matches Ok((h, info, t)) ==> {
                &&& h == self@.ktx2_handle
                &&& self@.info == Some(info)
                &&& t == match transcode_target {
                    Some(t) => t,
                    None => info.preferred_target,
                }
            },
    {
        if self.data_ptr == 0 || self.ktx2_handle == 0 {
            return Err(BasisuTranscodeError::TranscodingBeforePrepared);
        }
        let info = match self.info {
            None => return Err(BasisuTranscodeError::TranscodingBeforePrepared),
            Some(i) => i,
        };
        let target = match transcode_target {
            Some(t) => t,
            None => info.preferred_target,
        };
        Ok((self.ktx2_handle, info, target))
    }
}

/// Plans the transcode of a prepared texture with `info` to `target`, where
/// `target_supported` is what the transcoder answers to whether it can
/// produce `target` from the texture's basis format: the plan of
/// [`plan_of`], or `UnsupportedTranscodeTarget` where that has none.
pub fn plan_prepared(
    info: &TranscodeInfo,
    target: TranscodeTargetFormat,
    target_supported: bool,
    is_srgb: Option<bool>,
) -> (r: Result<TranscodePlan, BasisuTranscodeError>)
    requires
        target_supported && wgpu_format_of(target) is Some ==> (info.faces == 1 || info.faces
            == 6) && depth_fits(*info),
    ensures
        r == match plan_of(*info, target, target_supported, is_srgb) {
            Ok(p) => Ok::<TranscodePlan, BasisuTranscodeError>(p),
            Err(_) => Err(BasisuTranscodeError::UnsupportedTranscodeTarget),
        },
{
    match plan_transcode_of(info, target, target_supported, is_srgb) {
        Ok(p) => Ok(p),
        Err(_) => Err(BasisuTranscodeError::UnsupportedTranscodeTarget),
    }
}

} // verus!
