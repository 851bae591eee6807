//! Keys of the resources that live on the mesh.

use vstd::prelude::*;
use vstd::utf8::{decode_utf8, encode_utf8, valid_utf8};
use crate::error::{Error, Fail};
use crate::id::Id;
use crate::text::{decimal_string, decimal_text, same_text};

verus! {

/// Key of a space. Index 0 is the hyper space.
#[derive(Clone, Copy, Debug, PartialEq, Eq, Hash, Structural)]
pub enum SpaceKey {
    HyperSpace,
    Space(u32),
}

impl SpaceKey {
    /// The key with the given index.
    pub fn from_index(index: u32) -> (r: Self)
        ensures
            r == if index == 0 {
                SpaceKey::HyperSpace
            } else {
                SpaceKey::Space(index)
            },
    {
        if index == 0 {
            SpaceKey::HyperSpace
        } else {
            SpaceKey::Space(index)
        }
    }

    /// The index of the space: 0 for the hyper space.
    pub open spec fn spec_index(&self) -> u32 {
        match *self {
            SpaceKey::HyperSpace => 0,
            SpaceKey::Space(index) => index,
        }
    }

    /// The index of the space: 0 for the hyper space.
    pub fn index(&self) -> (r: u32)
        ensures
            r == self.spec_index(),
    {
        match self {
            SpaceKey::HyperSpace => 0,
            SpaceKey::Space(index) => *index,
        }
    }

    /// The text of the key.
    pub open spec fn text(&self) -> Seq<char> {
        match *self {
            SpaceKey::HyperSpace => "HyperSpace"@,
            SpaceKey::Space(index) => decimal_text(index as nat),
        }
    }

    /// `HyperSpace`, or the index in decimal.
    pub fn to_string(&self) -> (r: String)
        ensures
            r@ == self.text(),
    {
        match self {
            SpaceKey::HyperSpace => String::from_str("HyperSpace"),
            SpaceKey::Space(index) => decimal_string(*index as u64),
        }
    }
}

/// Who a user is inside a space. A generated user carries the 128 bits of a
/// UUID.
#[derive(Clone, Copy, Debug, PartialEq, Eq, Hash, Structural)]
pub enum UserId {
    Super,
    Annonymous,
    Uuid(u128),
}

/// Key of a user.
#[derive(Clone, Copy, Debug, PartialEq, Eq, Hash, Structural)]
pub struct UserKey {
    pub space: SpaceKey,
    pub id: UserId,
}

/// What a user may do.
#[derive(Clone, Copy, Debug, PartialEq, Eq, Hash, Structural)]
pub struct Priviledges {
    pub all: bool,
}

impl Priviledges {
    /// No privilege.
    pub fn new() -> (r: Self)
        ensures
            r == (Priviledges { all: false }),
    {
        Priviledges { all: false }
    }

    /// Every privilege.
    pub fn all() -> (r: Self)
        ensures
            r == (Priviledges { all: true }),
    {
        Priviledges { all: true }
    }
}

/// `Uuid::new_v4` of the uuid crate: 128 bits drawn at random. Nothing is
/// claimed of them.
#[verifier::external_body]
pub(crate) fn random_uuid() -> u128 {
    uuid::Uuid::new_v4().as_u128()
}

impl UserId {
    /// A fresh, random user id.
    pub fn new() -> (r: Self)
        ensures
            r is Uuid,
    {
        UserId::from_uuid(random_uuid())
    }

    /// The id of the user whose UUID has the given bits.
    pub fn from_uuid(bits: u128) -> (r: Self)
        ensures
            r == UserId::Uuid(bits),
    {
        UserId::Uuid(bits)
    }
}

impl UserKey {
    /// A key for a new user of `space`, with a random id.
    pub fn new(space: SpaceKey) -> (r: Self)
        ensures
            r.space == space,
            r.id is Uuid,
    {
        UserKey { space, id: UserId::new() }
    }

    /// The key of the user `id` of `space`.
    pub fn with_id(space: SpaceKey, id: UserId) -> (r: Self)
        ensures
            r == (UserKey { space, id }),
    {
        UserKey { space, id }
    }

    /// The super user of the hyper space.
    pub fn hyper_user() -> (r: Self)
        ensures
            r == (UserKey { space: SpaceKey::HyperSpace, id: UserId::Super }),
    {
        UserKey::with_id(SpaceKey::HyperSpace, UserId::Super)
    }

    /// The super user of `space`.
    pub fn super_user(space: SpaceKey) -> (r: Self)
        ensures
            r == (UserKey { space, id: UserId::Super }),
    {
        UserKey::with_id(space, UserId::Super)
    }

    /// The anonymous user of `space`.
    pub fn annonymous(space: SpaceKey) -> (r: Self)
        ensures
            r == (UserKey { space, id: UserId::Annonymous }),
    {
        UserKey::with_id(space, UserId::Annonymous)
    }

    /// Whether this is the super user of the hyper space.
    pub open spec fn spec_is_hyperuser(&self) -> bool {
        self.space == SpaceKey::HyperSpace && self.id == UserId::Super
    }

    /// Whether this is the super user of the hyper space.
    pub fn is_hyperuser(&self) -> (r: bool)
        ensures
            r == self.spec_is_hyperuser(),
    {
        match self.space {
            SpaceKey::HyperSpace => match self.id {
                UserId::Super => true,
                _ => false,
            },
            _ => false,
        }
    }

    /// Every privilege for the hyper user, none for anyone else.
    pub fn privileges(&self) -> (r: Priviledges)
        ensures
            r.all == self.spec_is_hyperuser(),
    {
        if self.is_hyperuser() {
            Priviledges::all()
        } else {
            Priviledges::new()
        }
    }
}

/// Which sub space of a space. Index 0 is the default one.
#[derive(Clone, Copy, Debug, PartialEq, Eq, Hash, Structural)]
pub enum SubSpaceId {
    Default,
    Index(u32),
}

impl SubSpaceId {
    /// The id with the given index.
    pub fn from_index(index: u32) -> (r: Self)
        ensures
            r == if index == 0 {
                SubSpaceId::Default
            } else {
                SubSpaceId::Index(index)
            },
    {
        if index == 0 {
            SubSpaceId::Default
        } else {
            SubSpaceId::Index(index)
        }
    }

    /// The index of the sub space: 0 for the default one.
    pub open spec fn spec_index(&self) -> u32 {
        match *self {
            SubSpaceId::Default => 0,
            SubSpaceId::Index(index) => index,
        }
    }

    /// The index of the sub space: 0 for the default one.
    pub fn index(&self) -> (r: u32)
        ensures
            r == self.spec_index(),
    {
        match self {
            SubSpaceId::Default => 0,
            SubSpaceId::Index(index) => *index,
        }
    }

    /// The text of the id.
    pub open spec fn text(&self) -> Seq<char> {
        match *self {
            SubSpaceId::Default => "Default"@,
            SubSpaceId::Index(index) => decimal_text(index as nat),
        }
    }

    /// `Default`, or the index in decimal.
    pub fn to_string(&self) -> (r: String)
        ensures
            r@ == self.text(),
    {
        match self {
            SubSpaceId::Default => String::from_str("Default"),
            SubSpaceId::Index(index) => decimal_string(*index as u64),
        }
    }
}

/// Key of a sub space.
#[derive(Clone, Copy, Debug, PartialEq, Eq, Hash, Structural)]
pub struct SubSpaceKey {
    pub space: SpaceKey,
    pub id: SubSpaceId,
}

impl SubSpaceKey {
    /// The default sub space of the hyper space.
    pub fn hyper_default() -> (r: Self)
        ensures
            r == (SubSpaceKey { space: SpaceKey::HyperSpace, id: SubSpaceId::Default }),
    {
        SubSpaceKey::new(SpaceKey::HyperSpace, SubSpaceId::Default)
    }

    /// The sub space `id` of `space`.
    pub fn new(space: SpaceKey, id: SubSpaceId) -> (r: Self)
        ensures
            r == (SubSpaceKey { space, id }),
    {
        SubSpaceKey { space, id }
    }

    /// The text of the key: the space, a hyphen, the sub space.
    pub open spec fn text(&self) -> Seq<char> {
        self.space.text() + "-"@ + self.id.text()
    }

    /// The space, a hyphen, the sub space.
    pub fn to_string(&self) -> (r: String)
        ensures
            r@ == self.text(),
    {
        let mut s = self.space.to_string();
        s.append("-");
        let id = self.id.to_string();
        s.append(id.as_str());
        s
    }
}

/// Which application of a sub space. A generated application carries the 128
/// bits of a UUID.
#[derive(Clone, Copy, Debug, PartialEq, Eq, Hash, Structural)]
pub enum AppId {
    HyperApp,
    Uuid(u128),
}

impl AppId {
    /// A fresh, random application id.
    pub fn new() -> (r: Self)
        ensures
            r is Uuid,
    {
        AppId::from_uuid(random_uuid())
    }

    /// The id of the application whose UUID has the given bits.
    pub fn from_uuid(bits: u128) -> (r: Self)
        ensures
            r == AppId::Uuid(bits),
    {
        AppId::Uuid(bits)
    }
}

/// Key of an application.
#[derive(Clone, Copy, Debug, PartialEq, Eq, Hash, Structural)]
pub struct AppKey {
    pub sub_space: SubSpaceKey,
    pub id: AppId,
}

impl AppKey {
    /// A key for a new application of `sub_space`, with a random id.
    pub fn new(sub_space: SubSpaceKey) -> (r: Self)
        ensures
            r.sub_space == sub_space,
            r.id is Uuid,
    {
        AppKey { sub_space, id: AppId::new() }
    }
}

/// Key of an actor of an application.
#[derive(Clone, Copy, Debug, PartialEq, Eq, Hash, Structural)]
pub struct ActorKey {
    pub app: AppKey,
    pub id: Id,
}

/// Key of an artifact of a sub space.
#[derive(Clone, Copy, Debug, PartialEq, Eq, Hash, Structural)]
pub struct ArtifactKey {
    pub sub_space: SubSpaceKey,
    pub id: u64,
}

/// Key of a file system that belongs to an application.
#[derive(Clone, Copy, Debug, PartialEq, Eq, Hash, Structural)]
pub struct AppFilesystemKey {
    pub app: AppKey,
    pub id: u32,
}

/// Key of a file system that belongs to a sub space.
#[derive(Clone, Copy, Debug, PartialEq, Eq, Hash, Structural)]
pub struct SubSpaceFilesystemKey {
    pub sub_space: SubSpaceKey,
    pub id: u32,
}

/// Key of a file system.
#[derive(Clone, Copy, Debug, PartialEq, Eq, Hash, Structural)]
pub enum FileSystemKey {
    App(AppFilesystemKey),
    SubSpace(SubSpaceFilesystemKey),
}

impl FileSystemKey {
    /// The sub space that the file system lies in.
    pub open spec fn spec_sub_space(&self) -> SubSpaceKey {
        match *self {
            FileSystemKey::App(app) => app.app.sub_space,
            FileSystemKey::SubSpace(sub_space) => sub_space.sub_space,
        }
    }

    /// The sub space that the file system lies in.
    pub fn sub_space(&self) -> (r: SubSpaceKey)
        ensures
            r == self.spec_sub_space(),
    {
        match self {
            FileSystemKey::App(app) => app.app.sub_space,
            FileSystemKey::SubSpace(sub_space) => sub_space.sub_space,
        }
    }

    /// `App` or `SubSpace`.
    pub fn to_string(&self) -> (r: String)
        ensures
            r@ == match *self {
                FileSystemKey::App(_) => "App"@,
                FileSystemKey::SubSpace(_) => "SubSpace"@,
            },
    {
        match self {
            FileSystemKey::App(_) => String::from_str("App"),
            FileSystemKey::SubSpace(_) => String::from_str("SubSpace"),
        }
    }
}

/// Key of a file.
#[derive(Clone, Copy, Debug, PartialEq, Eq, Hash, Structural)]
pub struct FileKey {
    pub filesystem: FileSystemKey,
    pub id: u64,
}

/// The kinds of resource that a key can name.
#[derive(Clone, Copy, Debug, PartialEq, Eq, Hash, Structural)]
pub enum ResourceType {
    Space,
    SubSpace,
    App,
    Actor,
    User,
    File,
    Artifact,
    FileSystem,
}

/// Key of any resource.
#[derive(Clone, Copy, Debug, PartialEq, Eq, Hash, Structural)]
pub enum ResourceKey {
    Space(SpaceKey),
    SubSpace(SubSpaceKey),
    App(AppKey),
    Actor(ActorKey),
    User(UserKey),
    Artifact(ArtifactKey),
    File(FileKey),
    FileSystem(FileSystemKey),
}

/// Who manages a resource: the central star, or the resource with the given
/// key.
#[derive(Clone, Copy, Debug, PartialEq, Eq, Hash, Structural)]
pub enum ResourceManagerKey {
    Central,
    Key(ResourceKey),
}

impl ResourceKey {
    /// The resource one level up, if there is one.
    pub open spec fn spec_parent(&self) -> Option<ResourceKey> {
        match *self {
            ResourceKey::Space(_) => None,
            ResourceKey::SubSpace(sub_space) => Some(ResourceKey::Space(sub_space.space)),
            ResourceKey::App(app) => Some(ResourceKey::SubSpace(app.sub_space)),
            ResourceKey::Actor(actor) => Some(ResourceKey::App(actor.app)),
            ResourceKey::User(user) => Some(ResourceKey::Space(user.space)),
            ResourceKey::Artifact(artifact) => Some(ResourceKey::SubSpace(artifact.sub_space)),
            ResourceKey::File(file) => Some(ResourceKey::FileSystem(file.filesystem)),
            ResourceKey::FileSystem(filesystem) => match filesystem {
                FileSystemKey::App(app) => Some(ResourceKey::App(app.app)),
                FileSystemKey::SubSpace(sub_space) => Some(
                    ResourceKey::SubSpace(sub_space.sub_space),
                ),
            },
        }
    }

    /// The resource one level up. A space has none.
    pub fn parent(&self) -> (r: Option<ResourceKey>)
        ensures
            r == self.spec_parent(),
    {
        match self {
            ResourceKey::Space(_) => None,
            ResourceKey::SubSpace(sub_space) => Some(ResourceKey::Space(sub_space.space)),
            ResourceKey::App(app) => Some(ResourceKey::SubSpace(app.sub_space)),
            ResourceKey::Actor(actor) => Some(ResourceKey::App(actor.app)),
            ResourceKey::User(user) => Some(ResourceKey::Space(user.space)),
            ResourceKey::Artifact(artifact) => Some(ResourceKey::SubSpace(artifact.sub_space)),
            ResourceKey::File(file) => Some(ResourceKey::FileSystem(file.filesystem)),
            ResourceKey::FileSystem(filesystem) => match filesystem {
                FileSystemKey::App(app) => Some(ResourceKey::App(app.app)),
                FileSystemKey::SubSpace(sub_space) => Some(
                    ResourceKey::SubSpace(sub_space.sub_space),
                ),
            },
        }
    }

    /// The space that the resource lies in.
    pub open spec fn spec_space(&self) -> SpaceKey {
        match *self {
            ResourceKey::Space(space) => space,
            ResourceKey::SubSpace(sub_space) => sub_space.space,
            ResourceKey::App(app) => app.sub_space.space,
            ResourceKey::Actor(actor) => actor.app.sub_space.space,
            ResourceKey::User(user) => user.space,
            ResourceKey::Artifact(artifact) => artifact.sub_space.space,
            ResourceKey::File(file) => file.filesystem.spec_sub_space().space,
            ResourceKey::FileSystem(filesystem) => filesystem.spec_sub_space().space,
        }
    }

    /// The space that the resource lies in.
    pub fn space(&self) -> (r: SpaceKey)
        ensures
            r == self.spec_space(),
    {
        match self {
            ResourceKey::Space(space) => *space,
            ResourceKey::SubSpace(sub_space) => sub_space.space,
            ResourceKey::App(app) => app.sub_space.space,
            ResourceKey::Actor(actor) => actor.app.sub_space.space,
            ResourceKey::User(user) => user.space,
            ResourceKey::Artifact(artifact) => artifact.sub_space.space,
            ResourceKey::File(file) => file.filesystem.sub_space().space,
            ResourceKey::FileSystem(filesystem) => filesystem.sub_space().space,
        }
    }

    /// The actor key, where the resource is an actor.
    pub fn actor(&self) -> (r: Result<ActorKey, Fail>)
        ensures
            r == match *self {
                ResourceKey::Actor(key) => Ok::<ActorKey, Fail>(key),
                _ => Err(Fail::WrongResourceType),
            },
    {
        match self {
            ResourceKey::Actor(key) => Ok(*key),
            _ => Err(Fail::WrongResourceType),
        }
    }

    /// The application key, where the resource is an application.
    pub fn app(&self) -> (r: Result<AppKey, Fail>)
        ensures
            r == match *self {
                ResourceKey::App(key) => Ok::<AppKey, Fail>(key),
                _ => Err(Fail::WrongResourceType),
            },
    {
        match self {
            ResourceKey::App(key) => Ok(*key),
            _ => Err(Fail::WrongResourceType),
        }
    }

    /// The file key, where the resource is a file.
    pub fn file(&self) -> (r: Result<FileKey, Fail>)
        ensures
            r == match *self {
                ResourceKey::File(key) => Ok::<FileKey, Fail>(key),
                _ => Err(Fail::WrongResourceType),
            },
    {
        match self {
            ResourceKey::File(key) => Ok(*key),
            _ => Err(Fail::WrongResourceType),
        }
    }

    /// Who manages the resource: the application for an actor, the central
    /// star for everything else.
    pub fn manager(&self) -> (r: ResourceManagerKey)
        ensures
            r == match *self {
                ResourceKey::Actor(actor) => ResourceManagerKey::Key(ResourceKey::App(actor.app)),
                _ => ResourceManagerKey::Central,
            },
    {
        match self {
            ResourceKey::Actor(actor) => ResourceManagerKey::Key(ResourceKey::App(actor.app)),
            _ => ResourceManagerKey::Central,
        }
    }

    /// The kind of resource that the key names.
    pub fn resource_type(&self) -> (r: ResourceType)
        ensures
            r == match *self {
                ResourceKey::Space(_) => ResourceType::Space,
                ResourceKey::SubSpace(_) => ResourceType::SubSpace,
                ResourceKey::App(_) => ResourceType::App,
                ResourceKey::Actor(_) => ResourceType::Actor,
                ResourceKey::User(_) => ResourceType::User,
                ResourceKey::File(_) => ResourceType::File,
                ResourceKey::Artifact(_) => ResourceType::Artifact,
                ResourceKey::FileSystem(_) => ResourceType::FileSystem,
            },
    {
        match self {
            ResourceKey::Space(_) => ResourceType::Space,
            ResourceKey::SubSpace(_) => ResourceType::SubSpace,
            ResourceKey::App(_) => ResourceType::App,
            ResourceKey::Actor(_) => ResourceType::Actor,
            ResourceKey::User(_) => ResourceType::User,
            ResourceKey::File(_) => ResourceType::File,
            ResourceKey::Artifact(_) => ResourceType::Artifact,
            ResourceKey::FileSystem(_) => ResourceType::FileSystem,
        }
    }

    /// The sub space that the resource lies in, if it lies in one.
    pub open spec fn spec_sub_space(&self) -> Option<SubSpaceKey> {
        match *self {
            ResourceKey::Space(_) => None,
            ResourceKey::SubSpace(sub_space) => Some(sub_space),
            ResourceKey::App(app) => Some(app.sub_space),
            ResourceKey::Actor(actor) => Some(actor.app.sub_space),
            ResourceKey::User(_) => None,
            ResourceKey::File(file) => Some(file.filesystem.spec_sub_space()),
            ResourceKey::Artifact(artifact) => Some(artifact.sub_space),
            ResourceKey::FileSystem(filesystem) => Some(filesystem.spec_sub_space()),
        }
    }

    /// The sub space that the resource lies in. A space and a user lie in
    /// none, and the error says so.
    pub fn sub_space(&self) -> (r: Result<SubSpaceKey, Error>)
        ensures
            match self.spec_sub_space() {
                Some(key) => r == Ok::<SubSpaceKey, Error>(key),
                None => r is Err && r->Err_0@.error == (if *self is Space {
                    "space does not have a subspace"@
                } else {
                    "user does not have a sub_space"@
                }),
            },
    {
        match self {
            ResourceKey::Space(_) => Err(Error::new("space does not have a subspace")),
            ResourceKey::SubSpace(sub_space) => Ok(*sub_space),
            ResourceKey::App(app) => Ok(app.sub_space),
            ResourceKey::Actor(actor) => Ok(actor.app.sub_space),
            ResourceKey::User(_) => Err(Error::new("user does not have a sub_space")),
            ResourceKey::File(file) => Ok(file.filesystem.sub_space()),
            ResourceKey::Artifact(artifact) => Ok(artifact.sub_space),
            ResourceKey::FileSystem(filesystem) => Ok(filesystem.sub_space()),
        }
    }
}

/// Key of a gathering of resources.
#[derive(Clone, Copy, Debug, PartialEq, Eq, Hash, Structural)]
pub enum GatheringKey {
    Actor(ActorKey),
}

/// The text of the UUID with the given bits, as the uuid crate writes it:
/// 32 digits in base 16 with small letters, in groups of 8, 4, 4, 4 and 12
/// with a hyphen between the groups.
pub uninterp spec fn uuid_text(bits: u128) -> Seq<char>;

/// The bits of the UUID that the text stands for, if the uuid crate reads
/// it as one.
pub uninterp spec fn uuid_bits(text: Seq<char>) -> Option<u128>;

/// The text that the base64 crate makes of the bytes, with its standard
/// alphabet and padding.
pub uninterp spec fn base64_text(bytes: Seq<u8>) -> Seq<char>;

/// The bytes that the base64 crate makes of the text, if it can.
pub uninterp spec fn base64_bytes(text: Seq<char>) -> Option<Seq<u8>>;

/// `Uuid::to_string` of the uuid crate, on the UUID that `Uuid::from_u128`
/// makes of the bits.
#[verifier::external_body]
pub(crate) fn uuid_string(bits: u128) -> (r: String)
    ensures
        r@ == uuid_text(bits),
{
    uuid::Uuid::from_u128(bits).to_string()
}

/// `Uuid::parse_str` of the uuid crate; the UUID that was read is handed
/// out as its bits, by `Uuid::as_u128`.
#[verifier::external_body]
pub(crate) fn parse_uuid(text: &str) -> (r: Option<u128>)
    ensures
        r == uuid_bits(text@),
{
    match uuid::Uuid::parse_str(text) {
        Ok(uuid) => Some(uuid.as_u128()),
        Err(_) => None,
    }
}

/// `base64::encode` of the base64 crate.
#[verifier::external_body]
pub(crate) fn base64_encode(bytes: &Vec<u8>) -> (r: String)
    ensures
        r@ == base64_text(bytes@),
{
    base64::encode(bytes)
}

/// `base64::decode` of the base64 crate; a text that it cannot read gives
/// nothing.
#[verifier::external_body]
pub(crate) fn base64_decode(text: &str) -> (r: Option<Vec<u8>>)
    ensures
        match base64_bytes(text@) {
            Some(bytes) => r matches Some(found) && found@ == bytes,
            None => r is None,
        },
{
    match base64::decode(text) {
        Ok(bytes) => Some(bytes),
        Err(_) => None,
    }
}

/// `String::from_utf8` of std: the text that the bytes encode in UTF-8, or
/// nothing where they encode none.
#[verifier::external_body]
pub(crate) fn text_of_utf8(bytes: Vec<u8>) -> (r: Option<String>)
    ensures
        match r {
            Some(text) => valid_utf8(bytes@) && text@ == decode_utf8(bytes@),
            None => !valid_utf8(bytes@),
        },
{
    String::from_utf8(bytes).ok()
}

impl UserId {
    /// The text of a user id.
    pub open spec fn text(self) -> Seq<char> {
        match self {
            UserId::Super => "super"@,
            UserId::Annonymous => "annonymous"@,
            UserId::Uuid(uuid) => uuid_text(uuid),
        }
    }

    /// `super`, `annonymous`, or the UUID.
    pub fn to_string(&self) -> (r: String)
        ensures
            r@ == self.text(),
    {
        match self {
            UserId::Super => String::from_str("super"),
            UserId::Annonymous => String::from_str("annonymous"),
            UserId::Uuid(uuid) => uuid_string(*uuid),
        }
    }
}

impl UserKey {
    /// The space and the id in brackets, with a comma between them.
    pub fn to_string(&self) -> (r: String)
        ensures
            r@ == "("@ + self.space.text() + ","@ + self.id.text() + ")"@,
    {
        let mut s = String::from_str("(");
        let space = self.space.to_string();
        s.append(space.as_str());
        s.append(",");
        let id = self.id.to_string();
        s.append(id.as_str());
        s.append(")");
        s
    }
}

impl AppId {
    /// The text of an application id.
    pub open spec fn text(self) -> Seq<char> {
        match self {
            AppId::HyperApp => "hyper-app"@,
            AppId::Uuid(uuid) => uuid_text(uuid),
        }
    }

    /// The application id that a text stands for, if it stands for one:
    /// `hyper-app`, or a UUID.
    pub open spec fn of_text(text: Seq<char>) -> Option<AppId> {
        if text == "hyper-app"@ {
            Some(AppId::HyperApp)
        } else {
            match uuid_bits(text) {
                Some(bits) => Some(AppId::Uuid(bits)),
                None => None,
            }
        }
    }

    /// The application id that an encoded text stands for, if it stands
    /// for one: the text is decoded from base 64 to bytes, the bytes are read
    /// as UTF-8, and what they say is read as an application id.
    pub open spec fn of_encoded(text: Seq<char>) -> Option<AppId> {
        match base64_bytes(text) {
            Some(bytes) => if valid_utf8(bytes) {
                Self::of_text(decode_utf8(bytes))
            } else {
                None
            },
            None => None,
        }
    }

    /// `hyper-app`, or the UUID.
    pub fn to_string(&self) -> (r: String)
        ensures
            r@ == self.text(),
    {
        match self {
            AppId::HyperApp => String::from_str("hyper-app"),
            AppId::Uuid(uuid) => uuid_string(*uuid),
        }
    }

    /// Reads an application id: see [`AppId::of_text`].
    pub fn from_str(s: &str) -> (r: Result<Self, Error>)
        ensures
            match Self::of_text(s@) {
                Some(id) => r == Ok::<AppId, Error>(id),
                None => r matches Err(error) && error@.error == "not an application id"@,
            },
    {
        if same_text(s, "hyper-app") {
            Ok(AppId::HyperApp)
        } else {
            match parse_uuid(s) {
                Some(bits) => Ok(AppId::Uuid(bits)),
                None => Err(Error::new("not an application id")),
            }
        }
    }

    /// The text of the id, written in UTF-8 and encoded in base 64.
    pub fn encode(&self) -> (r: Result<String, Error>)
        ensures
            r matches Ok(encoded) && encoded@ == base64_text(encode_utf8(self.text())),
    {
        let text = self.to_string();
        let bytes = text.as_str().as_bytes_vec();
        Ok(base64_encode(&bytes))
    }

    /// Reads an encoded application id: see [`AppId::of_encoded`].
    pub fn decode(string: String) -> (r: Result<Self, Error>)
        ensures
            match Self::of_encoded(string@) {
                Some(id) => r == Ok::<AppId, Error>(id),
                None => r is Err,
            },
    {
        match base64_decode(string.as_str()) {
            Some(bytes) => match text_of_utf8(bytes) {
                Some(text) => Self::from_str(text.as_str()),
                None => Err(Error::new("not text")),
            },
            None => Err(Error::new("not base 64")),
        }
    }
}

impl AppKey {
    /// The sub space and the id in brackets, with a comma between them.
    pub fn to_string(&self) -> (r: String)
        ensures
            r@ == "("@ + self.sub_space.text() + ","@ + self.id.text() + ")"@,
    {
        let mut s = String::from_str("(");
        let sub_space = self.sub_space.to_string();
        s.append(sub_space.as_str());
        s.append(",");
        let id = self.id.to_string();
        s.append(id.as_str());
        s.append(")");
        s
    }
}

} // verus!
