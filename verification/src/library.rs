//! The media library page: the uploads in progress and how file sizes are
//! shown.
use vstd::prelude::*;
use std::collections::BTreeMap;

use crate::util::Sequence;

verus! {

/// How far an upload has got, in bytes.
#[derive(Debug, Clone, Copy, PartialEq, Eq, Structural)]
pub struct UploadProgress {
    pub uploaded: u64,
    pub total: u64,
}

/// What an upload reports.
#[derive(Debug, Clone, Copy, PartialEq, Eq, Structural)]
pub enum UploadEvent {
    Progress(UploadProgress),
    Complete,
}

/// An upload in progress: the file's name and the last progress reported.
#[derive(Debug, Clone)]
pub struct InProgressUpload {
    pub filename: String,
    pub progress: Option<UploadProgress>,
}

/// The unit a file size is shown in.
#[derive(Debug, Clone, Copy, PartialEq, Eq, Structural)]
pub enum SizeUnit {
    /// Exactly one byte.
    Byte,
    /// A whole number of bytes, below one KiB.
    Bytes,
    /// KiB, with one decimal, below one MiB.
    KiB,
    /// MiB, with one decimal, below one GiB.
    MiB,
    /// GiB, with one decimal.
    GiB,
}

/// One kibibyte.
pub const KIB: usize = 1024;
/// One mebibyte.
pub const MIB: usize = 1024 * 1024;
/// One gibibyte.
pub const GIB: usize = 1024 * 1024 * 1024;

/// The unit a size of `bytes` is shown in: the largest binary unit that is
/// not more than the size, with a single byte shown as such.
pub fn size_unit(bytes: usize) -> (r: SizeUnit)
    ensures
        r == (if bytes == 1 {
            SizeUnit::Byte
        } else if bytes < KIB {
            SizeUnit::Bytes
        } else if bytes < MIB {
            SizeUnit::KiB
        } else if bytes < GIB {
            SizeUnit::MiB
        } else {
            SizeUnit::GiB
        }),
{
    if bytes == 1 {
        SizeUnit::Byte
    } else if bytes < KIB {
        SizeUnit::Bytes
    } else if bytes < MIB {
        SizeUnit::KiB
    } else if bytes < GIB {
        SizeUnit::MiB
    } else {
        SizeUnit::GiB
    }
}

/// The uploads in progress, by number.
#[derive(Debug)]
pub struct UploadRegistry {
    pub upload_seq: Sequence,
    pub uploads: BTreeMap<usize, InProgressUpload>,
}

impl UploadRegistry {
    /// Upload numbers are handed out by the sequence, so every upload held
    /// has a number it has already handed out.
    pub open spec fn wf(&self) -> bool {
        forall|k: usize| #[trigger] self.uploads@.contains_key(k) ==> 0 < k <= self.upload_seq@
    }

    /// No uploads.
    pub fn new() -> (r: Self)
        ensures
            r.wf(),
            r.uploads@ == Map::<usize, InProgressUpload>::empty(),
    {
        UploadRegistry { upload_seq: Sequence::new(), uploads: BTreeMap::new() }
    }

    /// Records the start of an upload of `filename`, with a new number.
    pub fn start(&mut self, filename: String) -> (r: usize)
        requires
            old(self).wf(),
            old(self).upload_seq@ < usize::MAX,
        ensures
            final(self).wf(),
            r == old(self).upload_seq@ + 1,
            !old(self).uploads@.contains_key(r),
            final(self).uploads@.contains_key(r),
            final(self).uploads@[r].filename@ == filename@,
            final(self).uploads@[r].progress is None,
            final(self).uploads@ == old(self).uploads@.insert(r, final(self).uploads@[r]),
    {
        let id = self.upload_seq.next();
        let ghost f = filename@;
        self.uploads.insert(id, InProgressUpload { filename, progress: None });
        id
    }

    /// Records an upload's event: progress replaces the last progress of an
    /// upload still held, and completion removes the upload. Says whether to
    /// re-render.
    pub fn on_event(&mut self, id: usize, event: UploadEvent) -> (r: bool)
        requires
            old(self).wf(),
        ensures
            final(self).wf(),
            final(self).upload_seq@ == old(self).upload_seq@,
            match event {
                UploadEvent::Progress(progress) => if old(self).uploads@.contains_key(id) {
                    &&& r
                    &&& final(self).uploads@.dom() == old(self).uploads@.dom()
                    &&& final(self).uploads@[id].progress == Some(progress)
                    &&& final(self).uploads@[id].filename@ == old(self).uploads@[id].filename@
                    &&& forall|k: usize| k != id && #[trigger] old(self).uploads@.contains_key(k)
                        ==> final(self).uploads@[k] == old(self).uploads@[k]
                } else {
                    !r && final(self).uploads@ == old(self).uploads@
                },
                UploadEvent::Complete => r && final(self).uploads@ == old(self).uploads@.remove(id),
            },
    {
        match event {
            UploadEvent::Progress(progress) => {
                match self.uploads.remove(&id) {
                    Some(upload) => {
                        let ghost before = self.uploads@;
                        let mut upload = upload;
                        upload.progress = Some(progress);
                        self.uploads.insert(id, upload);
                        true
                    },
                    None => false,
                }
            },
            UploadEvent::Complete => {
                self.uploads.remove(&id);
                true
            },
        }
    }
}

} // verus!
