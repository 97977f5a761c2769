//! Small utilities: gateway shard selection and the content-delivery
//! resources commands point at.

use vstd::prelude::*;

verus! {

/// The shard that serves a guild, by the gateway's sharding formula: the
/// guild id's timestamp bits, modulo the number of shards.
pub fn shard_id(guild_id: u64, total_shards: u64) -> (r: u64)
    requires
        total_shards > 0,
    ensures
        r == (guild_id >> 22u64) % total_shards,
{
    (guild_id >> 22u64) % total_shards
}

/// The image format of a content-delivery resource.
#[derive(Clone, Copy, Debug, PartialEq, Eq, Structural)]
pub enum CdnResourceFormat {
    GIF,
    JPEG,
    PNG,
    WebP,
}

/// A resource on the content-delivery network. Rendering the resource as a
/// URL is the client collaborator's business.
#[derive(Clone, Debug, PartialEq)]
pub enum CdnResource {
    /// The avatar a user uploaded.
    UserAvatar { user_id: u64, hash: String, format: CdnResourceFormat },
    /// The default avatar assigned from a user's discriminator.
    DefaultUserAvatar { discriminator: u16 },
}

/// The content-delivery network.
pub struct Cdn;

impl Cdn {
    /// The avatar a user uploaded, in the given format.
    pub fn user_avatar(user_id: u64, hash: String, format: CdnResourceFormat) -> (r: CdnResource)
        ensures
            r == (CdnResource::UserAvatar { user_id, hash, format }),
    {
        CdnResource::UserAvatar { user_id, hash, format }
    }

    /// The default avatar assigned from a user's discriminator.
    pub fn default_user_avatar(discriminator: u16) -> (r: CdnResource)
        ensures
            r == (CdnResource::DefaultUserAvatar { discriminator }),
    {
        CdnResource::DefaultUserAvatar { discriminator }
    }
}

} // verus!
