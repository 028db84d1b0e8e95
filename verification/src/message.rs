//! Formatting of webhook notification messages: one message per (account,
//! section), one embed per resolved offer.

use vstd::prelude::*;
use vstd::string::StrSliceExecFns;
use vstd::string::StringExecFns;

use crate::account::User;
use crate::models::{EmbedImage, MessageEmbed, SkinData, WebhookMessage};
use crate::numfmt::{i64_dec, spec_idec, spec_udec, u64_dec};
use crate::offers::skin_data_eqv;

verus! {

/// Currency marker that opens every offer description.
pub const CURRENCY_PREFIX: &'static str = "<:vp:1274118602001350757> ";

/// Embed color used for regular offers.
pub const REGULAR_COLOR: u64 = 0x6cc551;

/// Embed color used for bonus (discounted) offers.
pub const BONUS_COLOR: u64 = 0xff00aa;

/// The description line of an offer: for a bonus offer the struck-through
/// original cost, the discounted cost and the discount percent; for a
/// regular offer the plain cost.
pub open spec fn spec_description(skin: SkinData) -> Seq<char> {
    match skin.bonus_offer {
        Some(b) => CURRENCY_PREFIX@ + "~~"@ + spec_udec(skin.offer.cost.valorant_points as nat)
            + "~~ "@ + spec_udec(b.discount_costs.valorant_points as nat) + " (-"@ + spec_idec(
            b.discount_percent as int,
        ) + "%)"@,
        None => CURRENCY_PREFIX@ + spec_udec(skin.offer.cost.valorant_points as nat),
    }
}

/// The sender name of a message: display name, `#`, tag line.
pub open spec fn spec_sender(user: User) -> Seq<char> {
    user.game_name@ + "#"@ + user.tag_line@
}

/// The thumbnail of an offer embed: the skin-level icon, falling back to
/// the first variant's icon.
pub open spec fn spec_thumbnail(skin: SkinData) -> Option<EmbedImage> {
    match skin.detail.display_icon {
        Some(url) => Some(EmbedImage { url }),
        None => match skin.detail.levels@[0].display_icon {
            Some(url) => Some(EmbedImage { url }),
            None => None,
        },
    }
}

/// The title of an offer embed: the skin-level display name, falling
/// back to the first variant's name when the skin-level one is absent.
pub open spec fn spec_title(skin: SkinData) -> Option<String> {
    match skin.detail.display_name {
        Some(name) => Some(name),
        None => match skin.detail.levels@[0].display_name {
            Some(name) => Some(name),
            None => None,
        },
    }
}

/// What the embed built for one resolved offer holds: catalog title with
/// variant fallback, cost description, thumbnail with variant fallback,
/// and the section color.
pub open spec fn embed_matches(e: MessageEmbed, skin: SkinData) -> bool {
    &&& e.title == spec_title(skin)
    &&& (e.description matches Some(d) && d@ == spec_description(skin))
    &&& e.image is None
    &&& e.thumbnail == spec_thumbnail(skin)
    &&& e.color == Some(
        if skin.bonus_offer is None {
            REGULAR_COLOR
        } else {
            BONUS_COLOR
        },
    )
    &&& e.timestamp is None
    &&& e.footer is None
}

fn skin_description(skin: &SkinData) -> (r: String)
    ensures
        r@ == spec_description(*skin),
{
    match &skin.bonus_offer {
        Some(b) => {
            let mut s = CURRENCY_PREFIX.to_owned();
            s.append("~~");
            s.append(u64_dec(skin.offer.cost.valorant_points).as_str());
            s.append("~~ ");
            s.append(u64_dec(b.discount_costs.valorant_points).as_str());
            s.append(" (-");
            s.append(i64_dec(b.discount_percent).as_str());
            s.append("%)");
            s
        },
        None => CURRENCY_PREFIX.to_owned().concat(
            u64_dec(skin.offer.cost.valorant_points).as_str(),
        ),
    }
}

fn skin_thumbnail(skin: &SkinData) -> (r: Option<EmbedImage>)
    requires
        skin.detail.levels@.len() > 0,
    ensures
        r == spec_thumbnail(*skin),
{
    match &skin.detail.display_icon {
        Some(url) => Some(EmbedImage { url: url.clone() }),
        None => match &skin.detail.levels[0].display_icon {
            Some(url) => Some(EmbedImage { url: url.clone() }),
            None => None,
        },
    }
}

fn skin_title(skin: &SkinData) -> (r: Option<String>)
    requires
        skin.detail.levels@.len() > 0,
    ensures
        r == spec_title(*skin),
{
    match &skin.detail.display_name {
        Some(name) => Some(name.clone()),
        None => match &skin.detail.levels[0].display_name {
            Some(name) => Some(name.clone()),
            None => None,
        },
    }
}

fn skin_embed(skin: &SkinData) -> (e: MessageEmbed)
    requires
        skin.detail.levels@.len() > 0,
    ensures
        embed_matches(e, *skin),
{
    let title = skin_title(skin);
    MessageEmbed {
        title,
        description: Some(skin_description(skin)),
        image: None,
        thumbnail: skin_thumbnail(skin),
        color: Some(
            if skin.bonus_offer.is_none() {
                REGULAR_COLOR
            } else {
                BONUS_COLOR
            },
        ),
        timestamp: None,
        footer: None,
    }
}

/// What the notification message for one account and one resolved offer
/// list holds: the sender name, no plain content, and one embed per offer,
/// in order.
pub open spec fn message_matches(m: WebhookMessage, user: User, skins: Seq<SkinData>) -> bool {
    &&& m.content is None
    &&& (m.username matches Some(u) && u@ == spec_sender(user))
    &&& (m.embeds matches Some(es) && es@.len() == skins.len() && (forall|i: int|
        0 <= i < skins.len() ==> embed_matches(es@[i], skins[i])))
}

/// An embed built for an offer fits every offer of the same content: the
/// embed reads nothing beyond the offer, the discount and the catalog
/// entry's content.
pub proof fn lemma_embed_matches_eqv(e: MessageEmbed, a: SkinData, b: SkinData)
    requires
        skin_data_eqv(a, b),
    ensures
        embed_matches(e, a) == embed_matches(e, b),
{
    assert(spec_title(a) == spec_title(b));
    assert(spec_description(a) == spec_description(b));
    assert(spec_thumbnail(a) == spec_thumbnail(b));
}

/// A message that fits one resolved offer list fits every list of the
/// same content.
pub proof fn lemma_message_matches_eqv(m: WebhookMessage, user: User, a: Seq<SkinData>, b: Seq<
    SkinData,
>)
    requires
        a.len() == b.len(),
        forall|i: int| 0 <= i < a.len() ==> skin_data_eqv(a[i], b[i]),
        message_matches(m, user, a),
    ensures
        message_matches(m, user, b),
{
    let es = m.embeds.unwrap();
    assert forall|i: int| 0 <= i < b.len() implies embed_matches(es@[i], b[i]) by {
        lemma_embed_matches_eqv(es@[i], a[i], b[i]);
    }
}

/// Builds the notification message for one account and one resolved offer
/// list: the sender is `game_name#tag_line`, and each offer becomes one
/// embed, in order.
pub fn generate_store_messages(user: &User, skins: Vec<SkinData>) -> (r: WebhookMessage)
    requires
        forall|i: int| 0 <= i < skins@.len() ==> skins@[i].detail.levels@.len() > 0,
    ensures
        message_matches(r, *user, skins@),
{
    let username = user.game_name.clone().concat("#").concat(user.tag_line.as_str());
    let mut embeds: Vec<MessageEmbed> = Vec::new();
    let mut i: usize = 0;
    while i < skins.len()
        invariant
            0 <= i <= skins@.len(),
            forall|k: int| 0 <= k < skins@.len() ==> skins@[k].detail.levels@.len() > 0,
            embeds@.len() == i,
            forall|k: int| 0 <= k < i ==> embed_matches(embeds@[k], skins@[k]),
        decreases skins@.len() - i,
    {
        embeds.push(skin_embed(&skins[i]));
        i = i + 1;
    }
    WebhookMessage { content: None, username: Some(username), embeds: Some(embeds) }
}

} // verus!
