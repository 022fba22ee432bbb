//! Players as the service layer reports them, and the records handed to the UI.
use vstd::prelude::*;
use crate::error::LauncherError;

verus! {

/// An image of an avatar.
#[derive(Debug)]
pub struct ServiceImage {
    pub height: Option<u16>,
    pub width: Option<u16>,
    pub path: String,
}

/// The three sizes of an avatar.
#[derive(Debug)]
pub struct ServiceAvatarList {
    pub small: ServiceImage,
    pub medium: ServiceImage,
    pub large: ServiceImage,
}

/// A player as the UI shows it.
#[derive(Debug)]
pub struct ServicePlayer {
    pub id: String,
    pub pd: String,
    pub psd: String,
    pub display_name: String,
    pub unique_name: String,
    pub nickname: String,
    pub avatar: Option<ServiceAvatarList>,
    pub relationship: String,
}

/// An avatar image as the service layer reports it.
pub struct ImageRecord {
    pub height: Option<u16>,
    pub width: Option<u16>,
    pub path: String,
}

/// An avatar as the service layer reports it.
pub struct AvatarRecord {
    pub small: ImageRecord,
    pub medium: ImageRecord,
    pub large: ImageRecord,
}

/// A player as the service layer reports it; `relationship` is the
/// relationship's text form.
pub struct PlayerRecord {
    pub id: String,
    pub pd: String,
    pub psd: String,
    pub display_name: String,
    pub unique_name: String,
    pub nickname: String,
    pub avatar: Option<AvatarRecord>,
    pub relationship: String,
}

/// The basic presence state of a player.
#[derive(Debug, Clone, Copy, PartialEq, Eq)]
pub enum BasicPresence {
    Unknown,
    Offline,
    Online,
    Dnd,
    Away,
}

/// The presence of one player as the real-time messaging service reports it.
#[derive(Debug)]
pub struct RtmPresence {
    pub player_id: String,
    pub basic: BasicPresence,
    pub status: String,
    pub game: Option<String>,
}

/// `img` holds the fields of `rec`.
pub open spec fn image_converted(rec: ImageRecord, img: ServiceImage) -> bool {
    img.height == rec.height && img.width == rec.width && img.path@ == rec.path@
}

/// `avatar` holds the images of `rec`.
pub open spec fn avatar_converted(rec: AvatarRecord, avatar: ServiceAvatarList) -> bool {
    &&& image_converted(rec.small, avatar.small)
    &&& image_converted(rec.medium, avatar.medium)
    &&& image_converted(rec.large, avatar.large)
}

/// `p` holds the fields of `rec`: every text field, the avatar where there
/// is one, and the relationship.
pub open spec fn player_converted(rec: PlayerRecord, p: ServicePlayer) -> bool {
    &&& p.id@ == rec.id@
    &&& p.pd@ == rec.pd@
    &&& p.psd@ == rec.psd@
    &&& p.display_name@ == rec.display_name@
    &&& p.unique_name@ == rec.unique_name@
    &&& p.nickname@ == rec.nickname@
    &&& p.relationship@ == rec.relationship@
    &&& match (rec.avatar, p.avatar) {
        (Some(ra), Some(pa)) => avatar_converted(ra, pa),
        (None, None) => true,
        _ => false,
    }
}

/// A converted player carries the record field by field: each text field,
/// no avatar where the record has none, and otherwise the small, medium and
/// large image each taken from the record's image of the same size.
pub proof fn lemma_player_converted_fields(player: PlayerRecord, p: ServicePlayer)
    requires
        player_converted(player, p),
    ensures
        player.avatar is None <==> p.avatar is None,
        player.avatar matches Some(a) ==> (p.avatar matches Some(b) && {
            &&& b.small.height == a.small.height
            &&& b.small.width == a.small.width
            &&& b.small.path@ == a.small.path@
            &&& b.medium.height == a.medium.height
            &&& b.medium.width == a.medium.width
            &&& b.medium.path@ == a.medium.path@
            &&& b.large.height == a.large.height
            &&& b.large.width == a.large.width
            &&& b.large.path@ == a.large.path@
        }),
        p.id@ == player.id@,
        p.pd@ == player.pd@,
        p.psd@ == player.psd@,
        p.display_name@ == player.display_name@,
        p.unique_name@ == player.unique_name@,
        p.nickname@ == player.nickname@,
        p.relationship@ == player.relationship@,
{
}

fn convert_image(rec: &ImageRecord) -> (img: ServiceImage)
    ensures
        image_converted(*rec, img),
{
    ServiceImage { height: rec.height, width: rec.width, path: rec.path.clone() }
}

/// Copies a service-layer player into the record shown to the UI.
pub fn convert_service_player(player: &PlayerRecord) -> (p: ServicePlayer)
    ensures
        player_converted(*player, p),
        player.avatar is None <==> p.avatar is None,
        player.avatar matches Some(a) ==> (p.avatar matches Some(b) && {
            &&& b.small.height == a.small.height
            &&& b.small.width == a.small.width
            &&& b.small.path@ == a.small.path@
            &&& b.medium.height == a.medium.height
            &&& b.medium.width == a.medium.width
            &&& b.medium.path@ == a.medium.path@
            &&& b.large.height == a.large.height
            &&& b.large.width == a.large.width
            &&& b.large.path@ == a.large.path@
        }),
        p.id@ == player.id@,
        p.pd@ == player.pd@,
        p.psd@ == player.psd@,
        p.display_name@ == player.display_name@,
        p.unique_name@ == player.unique_name@,
        p.nickname@ == player.nickname@,
        p.relationship@ == player.relationship@,
{
    let avatar = match &player.avatar {
        Some(a) => Some(
            ServiceAvatarList {
                small: convert_image(&a.small),
                medium: convert_image(&a.medium),
                large: convert_image(&a.large),
            },
        ),
        None => None,
    };
    ServicePlayer {
        id: player.id.clone(),
        pd: player.pd.clone(),
        psd: player.psd.clone(),
        display_name: player.display_name.clone(),
        unique_name: player.unique_name.clone(),
        nickname: player.nickname.clone(),
        avatar,
        relationship: player.relationship.clone(),
    }
}

/// Converts a page of players (the friend list), keeping their order.
pub fn convert_service_players(players: &Vec<PlayerRecord>) -> (r: Vec<ServicePlayer>)
    ensures
        r@.len() == players@.len(),
        forall|i: int| 0 <= i < r@.len() ==> player_converted(#[trigger] players@[i], r@[i]),
{
    let mut r: Vec<ServicePlayer> = Vec::new();
    let mut i: usize = 0;
    while i < players.len()
        invariant
            i <= players@.len(),
            r@.len() == i,
            forall|j: int| 0 <= j < i ==> player_converted(#[trigger] players@[j], r@[j]),
        decreases players@.len() - i,
    {
        r.push(convert_service_player(&players[i]));
        i = i + 1;
    }
    r
}

/// The ids of a list of players, in order (whose presence is subscribed to).
pub fn player_ids(players: &Vec<PlayerRecord>) -> (ids: Vec<String>)
    ensures
        ids@.len() == players@.len(),
        forall|i: int| 0 <= i < ids@.len() ==> #[trigger] ids@[i]@ == players@[i].id@,
{
    let mut ids: Vec<String> = Vec::new();
    let mut i: usize = 0;
    while i < players.len()
        invariant
            i <= players@.len(),
            ids@.len() == i,
            forall|j: int| 0 <= j < i ==> #[trigger] ids@[j]@ == players@[j].id@,
        decreases players@.len() - i,
    {
        ids.push(players[i].id.clone());
        i = i + 1;
    }
    ids
}

/// The answer to a player search: the first player of the result page, or
/// `UserNotFound` where the page is empty.
pub fn first_search_result(items: &Vec<PlayerRecord>) -> (r: Result<ServicePlayer, LauncherError>)
    ensures
        items@.len() == 0 <==> r matches Err(LauncherError::UserNotFound),
        items@.len() > 0 ==> (r matches Ok(p) && player_converted(items@[0], p)),
{
    if items.len() == 0 {
        Err(LauncherError::UserNotFound)
    } else {
        Ok(convert_service_player(&items[0]))
    }
}

} // verus!
