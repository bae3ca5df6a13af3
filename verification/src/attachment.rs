//! The two directions between provider media and application-owned attachments.
use vstd::prelude::*;

use crate::context::AttachmentKind;
use crate::model::Modeled;

verus! {

/// An application-owned attachment that stands for a provider's media URL.
#[derive(Debug, PartialEq, Eq)]
pub struct ResolvedAttachment {
    pub attachment_id: String,
    pub media_type: String,
}

/// The mathematical content of a [`ResolvedAttachment`].
pub struct ResolvedAttachmentModel {
    pub attachment_id: Seq<char>,
    pub media_type: Seq<char>,
}

impl DeepView for ResolvedAttachment {
    type V = ResolvedAttachmentModel;

    open spec fn deep_view(&self) -> ResolvedAttachmentModel {
        ResolvedAttachmentModel {
            attachment_id: self.attachment_id.deep_view(),
            media_type: self.media_type.deep_view(),
        }
    }
}

impl Modeled for ResolvedAttachment {
    fn duplicate(&self) -> (r: Self) {
        ResolvedAttachment {
            attachment_id: self.attachment_id.duplicate(),
            media_type: self.media_type.duplicate(),
        }
    }

    fn same(&self, other: &Self) -> (r: bool) {
        self.attachment_id.same(&other.attachment_id)
            && self.media_type.same(&other.media_type)
    }
}

impl Clone for ResolvedAttachment {
    fn clone(&self) -> (r: Self)
        ensures
            r.deep_view() == self.deep_view(),
    {
        self.duplicate()
    }
}

/// The media source that is sent to the provider for an attachment.
#[derive(Debug, PartialEq, Eq)]
pub struct MaterializedAttachment {
    pub source: String,
}

/// The mathematical content of a [`MaterializedAttachment`].
pub struct MaterializedAttachmentModel {
    pub source: Seq<char>,
}

impl DeepView for MaterializedAttachment {
    type V = MaterializedAttachmentModel;

    open spec fn deep_view(&self) -> MaterializedAttachmentModel {
        MaterializedAttachmentModel {
            source: self.source.deep_view(),
        }
    }
}

impl Modeled for MaterializedAttachment {
    fn duplicate(&self) -> (r: Self) {
        MaterializedAttachment {
            source: self.source.duplicate(),
        }
    }

    fn same(&self, other: &Self) -> (r: bool) {
        self.source.same(&other.source)
    }
}

impl Clone for MaterializedAttachment {
    fn clone(&self) -> (r: Self)
        ensures
            r.deep_view() == self.deep_view(),
    {
        self.duplicate()
    }
}


/// Resolves provider-facing media URLs into application-owned attachment references. The contracts
/// of an adapter hold of a resolver whose answer depends on the URL and the kind alone.
pub trait AttachmentResolver: Send + Sync {
    /// The attachment that stands for a media URL, if there is one.
    closed spec fn resolution(&self, source: Seq<char>, kind: AttachmentKind) -> Option<
        ResolvedAttachmentModel,
    > {
        arbitrary()
    }

    fn resolve(&self, source: &str, kind: &AttachmentKind) -> (r: Option<ResolvedAttachment>)
        ensures
            r.deep_view() == self.resolution(source@, *kind),
    ;
}

/// Turns application-owned attachments into the media source of one provider request. The
/// contracts of an adapter hold of a materializer whose answer depends on the attachment alone.
pub trait AttachmentMaterializer: Send + Sync {
    /// The source that is sent for an attachment, if there is one.
    closed spec fn materialization(
        &self,
        attachment_id: Seq<char>,
        media_type: Seq<char>,
        kind: AttachmentKind,
    ) -> Option<MaterializedAttachmentModel> {
        arbitrary()
    }

    fn materialize(&self, attachment_id: &str, media_type: &str, kind: &AttachmentKind) -> (r:
        Option<MaterializedAttachment>)
        ensures
            r.deep_view() == self.materialization(attachment_id@, media_type@, *kind),
    ;
}

/// Knows no attachment.
pub struct NoAttachments;

impl AttachmentResolver for NoAttachments {
    open spec fn resolution(&self, source: Seq<char>, kind: AttachmentKind) -> Option<
        ResolvedAttachmentModel,
    > {
        None
    }

    fn resolve(&self, source: &str, kind: &AttachmentKind) -> (r: Option<ResolvedAttachment>) {
        None
    }
}

impl AttachmentMaterializer for NoAttachments {
    open spec fn materialization(
        &self,
        attachment_id: Seq<char>,
        media_type: Seq<char>,
        kind: AttachmentKind,
    ) -> Option<MaterializedAttachmentModel> {
        None
    }

    fn materialize(&self, attachment_id: &str, media_type: &str, kind: &AttachmentKind) -> (r:
        Option<MaterializedAttachment>) {
        None
    }
}

} // verus!
