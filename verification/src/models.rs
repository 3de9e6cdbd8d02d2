//! The data the TCGLense API exchanges, as plain values: pages and envelopes,
//! accounts and keys, the catalog, sealed products, collections and wish lists,
//! decks and their analyses, preconstructed decks, public profiles and the life
//! tracker. Only the fields the client reads or renders are modelled.
use std::collections::BTreeMap;
use vstd::prelude::*;

verus! {

/// A page of results plus the cursor metadata to paginate.
#[derive(Debug, Clone)]
pub struct Page<T> {
    pub data: Vec<T>,
    pub page: i64,
    pub page_size: i64,
    pub total: i64,
    pub has_more: bool,
}

/// The `{ "data": T }` envelope used by non-paginated list endpoints.
#[derive(Debug, Clone)]
pub struct DataBody<T> {
    pub data: T,
}

#[derive(Debug, Clone)]
pub struct User {
    pub id: i64,
    pub email: String,
    pub created_at: String,
    pub username: Option<String>,
    pub discriminator: Option<i64>,
    pub handle: Option<String>,
    pub currency: String,
}

#[derive(Debug, Clone)]
pub struct AuthResponse {
    pub access_token: String,
    pub user: User,
}

#[derive(Debug, Clone)]
pub struct RegisterResponse {
    pub completion_token: Option<String>,
}

#[derive(Debug, Clone)]
pub struct PublicConfig {
    pub maintenance_mode: bool,
    pub turnstile_site_key: Option<String>,
    pub signups_enabled: bool,
    pub signups_disabled_message: Option<String>,
}

#[derive(Debug, Clone)]
pub struct ApiKeyInfo {
    pub id: i64,
    pub name: String,
    pub scope: String,
    pub key_prefix: String,
    pub created_at: String,
    pub last_used_at: Option<String>,
    pub expires_at: Option<String>,
}

#[derive(Debug, Clone)]
pub struct ApiKeyList {
    pub data: Vec<ApiKeyInfo>,
}

#[derive(Debug, Clone)]
pub struct CreatedApiKey {
    pub id: i64,
    pub name: String,
    pub scope: String,
    pub key: String,
    pub key_prefix: String,
    pub created_at: String,
    pub expires_at: Option<String>,
}

#[derive(Debug, Clone)]
pub struct UsernameAvailability {
    pub valid: bool,
    pub reason: Option<String>,
}

#[derive(Debug, Clone)]
pub struct Game {
    pub id: String,
    pub name: String,
    pub publisher: String,
    pub data_source: String,
}

#[derive(Debug, Clone)]
pub struct CardSet {
    pub code: String,
    pub name: String,
    pub set_type: Option<String>,
    pub released_at: Option<String>,
    pub card_count: i64,
    pub icon_svg_uri: Option<String>,
    pub parent_set_code: Option<String>,
    pub has_drops: bool,
    /// What one of the set's groups is called, singular and lowercase — `"drop"` for
    /// Secret Lair, `"treatment"` for a print-treatment gallery. `None` when
    /// `has_drops` is false.
    pub drop_noun: Option<String>,
    pub has_subtypes: bool,
}

#[derive(Debug, Clone)]
pub struct CardPrices {
    pub usd: Option<String>,
    pub usd_foil: Option<String>,
    /// The etched-foil price, for the printings that ship one. USD only.
    pub usd_etched: Option<String>,
    pub eur: Option<String>,
    pub tix: Option<String>,
}

#[derive(Debug, Clone)]
pub struct CardFace {
    pub name: Option<String>,
    pub mana_cost: Option<String>,
    pub type_line: Option<String>,
    pub oracle_text: Option<String>,
    pub power: Option<String>,
    pub toughness: Option<String>,
    pub loyalty: Option<String>,
}

/// One printing of a card as every listing shows it. The mana value is kept as the
/// text it is shown with (the API sends a number; `None` reads as `0`).
#[derive(Debug, Clone)]
pub struct Card {
    pub id: String,
    pub name: String,
    pub set_code: String,
    pub set_name: String,
    pub collector_number: String,
    pub rarity: Option<String>,
    pub lang: String,
    pub released_at: Option<String>,
    pub mana_cost: Option<String>,
    /// The converted mana cost, as displayed.
    pub cmc: Option<String>,
    pub type_line: Option<String>,
    pub oracle_text: Option<String>,
    pub power: Option<String>,
    pub toughness: Option<String>,
    pub loyalty: Option<String>,
    pub color_identity: Vec<String>,
    pub colors: Vec<String>,
    pub layout: Option<String>,
    pub prices: CardPrices,
    /// Per-format legality: `"modern"` → `"legal" | "not_legal" | "banned" |
    /// "restricted"`. Absent when the catalog row carries no legality data.
    pub legalities: Option<BTreeMap<String, String>>,
    pub has_image: bool,
    pub drop_name: Option<String>,
    pub drop_slug: Option<String>,
    /// What `drop_name` names — `"drop"` or `"treatment"` — paired with it.
    pub drop_noun: Option<String>,
    pub secret_lair_bonus: bool,
    pub secret_lair_spend_incentive: bool,
    pub faces: Vec<CardFace>,
}

/// The single-card route's payload: the card as every listing shows it plus the
/// printing-level detail only this route carries.
#[derive(Debug, Clone)]
pub struct CardDetail {
    pub card: Card,
    /// The illustrator credited on the printing.
    pub artist: Option<String>,
    pub artist_ids: Vec<String>,
    pub illustration_id: Option<String>,
    /// The printed flavour text; a multi-faced card's faces are joined by `\n//\n`.
    pub flavor_text: Option<String>,
    pub watermark: Option<String>,
    pub frame: Option<String>,
    pub frame_effects: Vec<String>,
    pub border_color: Option<String>,
    pub security_stamp: Option<String>,
    /// The finishes this printing exists in — `nonfoil` / `foil` / `etched`.
    pub finishes: Vec<String>,
    pub promo_types: Vec<String>,
    pub produced_mana: Vec<String>,
    pub defense: Option<String>,
    pub reserved: bool,
    pub full_art: bool,
    pub textless: bool,
    pub promo: bool,
    pub variation: bool,
    pub story_spotlight: bool,
    pub content_warning: bool,
    /// Popularity rank on EDHREC (lower is more played); `None` when unranked.
    pub edhrec_rank: Option<i64>,
    pub penny_rank: Option<i64>,
    pub multiverse_ids: Vec<i64>,
    pub tcgplayer_id: Option<i64>,
    pub tcgplayer_etched_id: Option<i64>,
    pub cardmarket_id: Option<i64>,
    pub mtgo_id: Option<i64>,
    pub mtgo_foil_id: Option<i64>,
    pub arena_id: Option<i64>,
}

#[derive(Debug, Clone)]
pub struct PricePoint {
    pub date: String,
    pub usd: Option<String>,
    pub usd_foil: Option<String>,
    pub usd_etched: Option<String>,
    pub eur: Option<String>,
    pub tix: Option<String>,
}

#[derive(Debug, Clone)]
pub struct Ruling {
    /// Who issued it: `wotc` or `scryfall`.
    pub source: String,
    /// `YYYY-MM-DD`.
    pub published_at: String,
    pub comment: String,
}

/// One community Tagger art tag — what a card's *artwork* depicts. The slug is the
/// value the `art:` search filter matches.
#[derive(Debug, Clone)]
pub struct ArtTag {
    pub slug: String,
    pub label: String,
    /// Distinct artworks carrying the tag (hierarchy-expanded).
    pub count: i64,
    pub description: Option<String>,
}

/// One glossary entry: a keyword ability, keyword action, or ability word.
#[derive(Debug, Clone)]
pub struct Keyword {
    pub name: String,
    pub slug: String,
    /// `ability` | `action` | `ability_word`.
    pub kind: String,
    /// Plain-English explanation (the official reminder text where one exists).
    pub text: String,
    /// Whether the keyword normally carries a value in card text (`Ward {2}`).
    pub parameterized: bool,
    /// How safely the name can be spotted in rules text: `anywhere` |
    /// `ability_line` | `never`.
    pub match_mode: String,
}

#[derive(Debug, Clone)]
pub struct IngestStatus {
    pub status: String,
    pub detail: Option<String>,
    pub sets_imported: i64,
    pub cards_imported: i64,
    pub source_updated_at: Option<String>,
    pub finished_at: Option<String>,
}

/// One Secret Lair drop of a set, with its cards.
#[derive(Debug, Clone)]
pub struct DropGroup {
    pub slug: Option<String>,
    pub title: String,
    pub card_count: i64,
    pub cheapest_prints_usd: Option<String>,
    /// The drop's street date (`YYYY-MM-DD`), derived from its cards; a future
    /// date means the drop hasn't landed yet.
    pub released_at: Option<String>,
    pub cards: Vec<Card>,
}

/// One sub-type grouping of a set, with its cards.
#[derive(Debug, Clone)]
pub struct SubtypeGroup {
    pub slug: Option<String>,
    pub title: String,
    pub card_count: i64,
    pub cards: Vec<Card>,
}

/// One catalog card a scanned fingerprint matched, and how far off it was.
#[derive(Debug, Clone)]
pub struct ScanMatch {
    pub card: Card,
    pub distance: i64,
}

#[derive(Debug, Clone)]
pub struct ProductPrices {
    pub usd: Option<String>,
    pub usd_foil: Option<String>,
}

#[derive(Debug, Clone)]
pub struct Product {
    pub id: String,
    pub name: String,
    pub set_code: String,
    pub set_name: Option<String>,
    pub product_type: String,
    pub url: Option<String>,
    pub has_image: bool,
    pub prices: ProductPrices,
    pub msrp: Option<String>,
    pub released_at: Option<String>,
}

#[derive(Debug, Clone)]
pub struct ProductPricePoint {
    pub date: String,
    pub usd: Option<String>,
    pub usd_foil: Option<String>,
}

#[derive(Debug, Clone)]
pub struct ProductSetRef {
    pub code: String,
    pub name: Option<String>,
    pub product_count: i64,
}

#[derive(Debug, Clone)]
pub struct ProductFacets {
    pub types: Vec<String>,
    pub sets: Vec<ProductSetRef>,
}

#[derive(Debug, Clone)]
pub struct SealedProductRef {
    pub product: Product,
    pub membership: String,
    pub foil: bool,
}

/// One card a sealed product can yield, and how.
#[derive(Debug, Clone)]
pub struct ProductCardEntry {
    pub card: Card,
    pub membership: String,
    pub foil: bool,
    pub exclusive: bool,
}

#[derive(Debug, Clone)]
pub struct ProductCardSection {
    pub key: String,
    pub total: i64,
    pub booster_family: Option<String>,
    /// The unlisted box component this section's cards are packed in — also the
    /// `--component` value that pages them; null for a plain section.
    pub component: Option<String>,
    /// `true` when every card of a plain section arrived through a listed
    /// sub-product, so the same pool is browsable on that product's own page;
    /// always `false` for a component section.
    pub inherited: bool,
}

/// One listed component of a sealed product: another product or a card.
#[derive(Debug, Clone)]
pub struct ProductComponent {
    pub kind: String,
    pub name: String,
    pub quantity: i64,
    pub product: Option<Product>,
    pub card: Option<Card>,
}

#[derive(Debug, Clone)]
pub struct ProductContainer {
    pub product: Product,
    pub quantity: i64,
}

/// One card a simulated opening pulled.
#[derive(Debug, Clone)]
pub struct OpenedCard {
    pub card: Card,
    pub foil: bool,
    pub sheet: String,
    pub price_usd: Option<String>,
}

/// One pack of a simulated opening.
#[derive(Debug, Clone)]
pub struct OpenedPack {
    pub booster_code: String,
    pub name: Option<String>,
    pub set_code: String,
    pub variant: i64,
    pub value_usd: String,
    pub cards: Vec<OpenedCard>,
}

/// One simulated opening of a sealed product, a pure function of its seed.
#[derive(Debug, Clone)]
pub struct ProductOpening {
    pub seed: i64,
    pub copies: i64,
    pub packs: Vec<OpenedPack>,
    pub value_usd: String,
    pub priced_count: i64,
    pub unpriced_count: i64,
    pub caveats: Vec<String>,
}

/// One card a combo needs, as the card page lists it.
#[derive(Debug, Clone)]
pub struct ComboPiece {
    /// The card's gameplay identity (Scryfall `oracle_id`).
    pub oracle_id: String,
    pub name: String,
    /// Copies the combo needs.
    pub quantity: i64,
    /// Whether it has to be in the command zone.
    pub must_be_commander: bool,
    /// A catalog printing to look up — the newest the catalog holds; null when it
    /// holds none (a spoiler, a card set not imported yet).
    pub card_id: Option<String>,
}

/// One Commander Spellbook combo the viewed card is a piece of. Everything here is
/// the data source's own datum — `url` is the page it came from, the link the
/// source's terms ask for.
#[derive(Debug, Clone)]
pub struct CardCombo {
    /// Commander Spellbook's variant id (`"245-2034-6705"`).
    pub id: String,
    /// The combo's page on Commander Spellbook.
    pub url: String,
    /// Colour identity letters in WUBRG order; empty for colourless.
    pub identity: Vec<String>,
    /// The step-by-step description.
    pub description: String,
    /// Upstream's popularity counter — higher is more played.
    pub popularity: i64,
    /// Wildcard requirements the app can't evaluate ("A free sacrifice outlet").
    pub templates: Vec<String>,
    /// What it produces — the results a player cares about, by name.
    pub produces: Vec<String>,
    /// Upstream's bracket tag (`"C"` casual, `"R"` ruthless, …); null when unset.
    pub bracket_tag: Option<String>,
    /// Mana to start it, Scryfall-style (`"{6}"`); null when none is needed.
    pub mana_needed: Option<String>,
    pub mana_value_needed: Option<i64>,
    /// Prerequisites beyond the pieces themselves; null when none.
    pub prerequisites: Option<String>,
    /// Every piece, in the combo's own order — the viewed card included.
    pub pieces: Vec<ComboPiece>,
}

/// The combos a card is a piece of, most-played first.
#[derive(Debug, Clone)]
pub struct CardCombos {
    /// At most 50, by popularity; `total` is exact.
    pub combos: Vec<CardCombo>,
    pub total: i64,
    /// Where the data comes from, for the attribution the source asks for.
    pub source: String,
    pub source_url: String,
}

/// A set releasing inside a window, with the precons and sealed products it ships.
#[derive(Debug, Clone)]
pub struct SetRelease {
    pub set: CardSet,
    /// `YYYY-MM-DD`.
    pub released_at: String,
    /// Whether this is the Secret Lair set (its drops are listed separately).
    pub secret_lair: bool,
    pub precons: Vec<PreconDeck>,
    pub products: Vec<Product>,
}

/// A Secret Lair drop whose cards release inside a window.
#[derive(Debug, Clone)]
pub struct SecretLairDropRelease {
    pub slug: String,
    pub title: String,
    pub set_code: String,
    /// `YYYY-MM-DD`.
    pub released_at: String,
    pub products: Vec<Product>,
}

/// The release calendar for a window: the sets releasing in it (each with what it
/// ships) and the Secret Lair drops, both date-ascending.
#[derive(Debug, Clone)]
pub struct Releases {
    /// The window's first day (`YYYY-MM-DD`), inclusive — as resolved, so a
    /// defaulted request learns what it was answered for.
    pub from: String,
    /// The window's last day (`YYYY-MM-DD`), inclusive.
    pub to: String,
    /// Sets releasing inside the window, date then code ascending.
    pub sets: Vec<SetRelease>,
    /// Secret Lair drops with cards releasing inside the window, date then title
    /// ascending. Always empty for a game without Secret Lair.
    pub secret_lair_drops: Vec<SecretLairDropRelease>,
}

#[derive(Debug, Clone)]
pub struct CollectionQuantities {
    pub quantity: i64,
    pub foil_quantity: i64,
}

/// One held card and its copies.
#[derive(Debug, Clone)]
pub struct CollectionEntry {
    pub card: Card,
    pub quantity: i64,
    pub foil_quantity: i64,
}

#[derive(Debug, Clone)]
pub struct CollectionSummary {
    pub unique_cards: i64,
    pub total_cards: i64,
    pub total_value_usd: Option<String>,
    pub bulk_value_usd: Option<String>,
}

#[derive(Debug, Clone)]
pub struct CollectionSet {
    pub code: String,
    pub name: String,
    pub set_type: Option<String>,
    pub released_at: Option<String>,
    pub card_count: i64,
    pub icon_svg_uri: Option<String>,
    pub parent_set_code: Option<String>,
    pub has_drops: bool,
    pub has_subtypes: bool,
    pub owned_cards: i64,
    pub owned_copies: i64,
    pub owned_value_usd: Option<String>,
    pub owned_bulk_value_usd: Option<String>,
}

#[derive(Debug, Clone)]
pub struct CollectionValuePoint {
    pub date: String,
    pub value_usd: Option<String>,
    pub sealed_value_usd: Option<String>,
}

#[derive(Debug, Clone)]
pub struct CollectionVisibility {
    pub public: bool,
    pub show_value_chart: bool,
    pub show_movers: bool,
    pub handle: Option<String>,
}

#[derive(Debug, Clone)]
pub struct WishlistVisibility {
    pub public: bool,
    pub handle: Option<String>,
}

/// One bucket of a breakdown facet: how many distinct held cards and copies file
/// under it, and what they are worth as held.
#[derive(Debug, Clone)]
pub struct BreakdownBucket {
    /// The bucket's stable key — a rarity, a colour-identity bucket, a card type,
    /// or `regular`/`foil`.
    pub key: String,
    /// Distinct held cards in the bucket (one per holdings row).
    pub cards: i64,
    /// Held copies in the bucket (regular + foil — or, for a finish bucket, that
    /// finish).
    pub copies: i64,
    /// A 2-dp decimal string; `None` when none of the bucket's copies is priced.
    pub value_usd: Option<String>,
}

/// One of the most valuable holdings, by held value.
#[derive(Debug, Clone)]
pub struct TopHolding {
    pub card: Card,
    pub quantity: i64,
    pub foil_quantity: i64,
    pub value_usd: String,
}

/// Where a surface's value sits: by rarity, colour identity, card type and finish,
/// plus the most valuable holdings.
#[derive(Debug, Clone)]
pub struct CollectionBreakdown {
    pub summary: CollectionSummary,
    pub rarity: Vec<BreakdownBucket>,
    pub color: Vec<BreakdownBucket>,
    pub card_type: Vec<BreakdownBucket>,
    pub finish: Vec<BreakdownBucket>,
    pub top: Vec<TopHolding>,
    pub unpriced_cards: i64,
}

/// One drop of a set with the holdings in it.
#[derive(Debug, Clone)]
pub struct CollectionDropGroup {
    pub slug: Option<String>,
    pub title: String,
    pub card_count: i64,
    pub cards: Vec<CollectionEntry>,
}

/// One sub-type of a set with the holdings in it.
#[derive(Debug, Clone)]
pub struct CollectionSubtypeGroup {
    pub slug: Option<String>,
    pub title: String,
    pub card_count: i64,
    pub cards: Vec<CollectionEntry>,
}

#[derive(Debug, Clone)]
pub struct ProductHoldingEntry {
    pub product: Product,
    pub quantity: i64,
    pub foil_quantity: i64,
}

#[derive(Debug, Clone)]
pub struct ProductHoldingSummary {
    pub unique_products: i64,
    pub total_products: i64,
    pub total_value_usd: Option<String>,
}

#[derive(Debug, Clone)]
pub struct ProductHoldingSet {
    pub code: String,
    pub name: Option<String>,
    pub unique_products: i64,
    pub total_products: i64,
    pub total_value_usd: Option<String>,
}

#[derive(Debug, Clone)]
pub struct ImportProgress {
    pub fetched: i64,
    pub total: Option<i64>,
}

#[derive(Debug, Clone)]
pub struct ImportSummary {
    pub provider: String,
    pub mode: String,
    pub total_rows: i64,
    pub distinct_cards: i64,
    pub matched_cards: i64,
    pub unmatched_cards: i64,
    pub unmatched_sample: Vec<String>,
    pub regular_copies: i64,
    pub foil_copies: i64,
    pub removed_cards: i64,
}

#[derive(Debug, Clone)]
pub struct ImportJob {
    pub job_id: i64,
    pub status: String,
    pub progress: Option<ImportProgress>,
    pub summary: Option<ImportSummary>,
    pub error: Option<String>,
}

/// One wanted card printing on a shopping list, as a store's bulk-entry page takes
/// it: the counts plus the printing's TCGplayer product id where TCGplayer lists it.
#[derive(Debug, Clone)]
pub struct BuyListCard {
    /// The printing's external (Scryfall) id.
    pub card_id: String,
    pub name: String,
    pub set_code: String,
    pub collector_number: String,
    /// Regular copies wanted.
    pub quantity: i64,
    /// Foil copies wanted.
    pub foil_quantity: i64,
    /// TCGplayer product id of the printing; `None` when TCGplayer doesn't list it.
    pub tcgplayer_id: Option<i64>,
}

/// One wanted sealed product on a shopping list (its external id is its TCGplayer
/// product id).
#[derive(Debug, Clone)]
pub struct BuyListProduct {
    pub product_id: String,
    pub name: String,
    pub quantity: i64,
    pub foil_quantity: i64,
}

/// A shopping list as bulk-buy rows — the wish list's (`GET /api/wishlist/{game}/
/// buy-list`) and the decks' (`GET /api/decks/{game}/needed/buy-list`) share the
/// shape. Card rows are capped at 500; `truncated` + the totals say what was cut.
/// Sealed products ride only on an unfiltered wish-list request.
#[derive(Debug, Clone)]
pub struct BuyList {
    pub cards: Vec<BuyListCard>,
    pub products: Vec<BuyListProduct>,
    /// Card rows the filters matched, including any beyond the cap.
    pub total_cards: i64,
    /// Sealed-product rows (`0` when the request was filtered).
    pub total_products: i64,
    /// Whether either list was cut at the cap.
    pub truncated: bool,
}

/// One card in a deck's command zone, as the deck list names it. The external
/// card id travels so a client can link to the printing.
#[derive(Debug, Clone)]
pub struct DeckCommander {
    pub card_id: String,
    pub name: String,
}

#[derive(Debug, Clone)]
pub struct Deck {
    pub id: i64,
    pub game: String,
    pub name: String,
    pub description: Option<String>,
    pub format: Option<String>,
    pub folder_id: Option<i64>,
    pub is_public: bool,
    pub card_count: i64,
    /// The card(s) in the command zone — one for most Commander decks, two for
    /// partners or an Oathbreaker pair; empty for a deck without one.
    pub commanders: Vec<DeckCommander>,
    /// WUBRG-ordered letters; `[]` is colourless and **null** means there was
    /// nothing to read a colour off — the three-way convention `PreconDeck` uses.
    pub color_identity: Option<Vec<String>>,
    /// Estimated USD value of everything outside a maybeboard (2-dp decimal
    /// string); null when nothing in the deck is priced — never `"0.00"`.
    pub value_usd: Option<String>,
    pub created_at: String,
    pub updated_at: String,
}

#[derive(Debug, Clone)]
pub struct DeckSection {
    pub id: i64,
    pub name: String,
    pub position: i64,
    /// Whether the section sits outside the deck proper — its cards are left out
    /// of `summary`, legality, analytics and the needed list.
    pub is_maybeboard: bool,
}

/// One card row of a deck, in its section.
#[derive(Debug, Clone)]
pub struct DeckCardEntry {
    pub card: Card,
    pub section_id: i64,
    pub quantity: i64,
    pub foil_quantity: i64,
}

/// A deck in full: its header, sections and cards.
#[derive(Debug, Clone)]
pub struct DeckDetail {
    pub id: i64,
    pub game: String,
    pub name: String,
    pub description: Option<String>,
    pub format: Option<String>,
    pub folder_id: Option<i64>,
    pub is_public: bool,
    pub handle: Option<String>,
    /// Aggregates over the deck **proper** — every card outside a maybeboard section.
    pub summary: CollectionSummary,
    /// The same aggregates over the maybeboard sections alone.
    pub maybeboard_summary: Option<CollectionSummary>,
    pub sections: Vec<DeckSection>,
    pub cards: Vec<DeckCardEntry>,
    pub created_at: String,
    pub updated_at: String,
}

#[derive(Debug, Clone)]
pub struct DeckFolder {
    pub id: i64,
    pub name: String,
    pub deck_count: i64,
}

#[derive(Debug, Clone)]
pub struct DeckVisibility {
    pub public: bool,
    pub handle: Option<String>,
}

#[derive(Debug, Clone)]
pub struct DeckImportResponse {
    pub deck: Deck,
    pub provider: String,
    pub total_rows: i64,
    pub matched_cards: i64,
    pub unmatched_cards: i64,
    pub unmatched_sample: Vec<String>,
}

/// One legality-tracked format: its Scryfall key, how it's spelled to a human, the
/// select grouping it renders under, and the extra spellings `deck.format` accepts.
#[derive(Debug, Clone)]
pub struct DeckFormat {
    /// The key used in a card's `legalities` object.
    pub key: String,
    /// Display label — also what's stored in `deck.format` when picked.
    pub label: String,
    /// `constructed` | `commander` | `arena` | `other`.
    pub group: String,
    pub aliases: Vec<String>,
    /// Whether it's one of the most-played formats.
    pub popular: bool,
}

/// One offending card name in a deck (all printings of a name fold into one issue).
#[derive(Debug, Clone)]
pub struct DeckLegalityIssue {
    /// External card id of one printing (for links).
    pub card_id: String,
    pub name: String,
    /// `banned` | `not_legal` | `commander_only` | `off_colour` | `over_limit` |
    /// `restricted`.
    pub status: String,
    /// Total copies across every section and printing.
    pub quantity: i64,
}

/// One deck-wide construction breach, with a ready-to-render sentence.
#[derive(Debug, Clone)]
pub struct DeckRuleViolation {
    /// `deck-size` | `sideboard-size` | `command-zone` | `commander-eligibility` |
    /// `colour-identity`.
    pub rule: String,
    /// `error` (illegal as it stands) or `warning` (simply not finished yet).
    pub severity: String,
    pub message: String,
}

/// A deck's verdict against its own format.
#[derive(Debug, Clone)]
pub struct DeckLegality {
    /// The legality key the deck's format label normalised to.
    pub format_key: String,
    pub format_label: String,
    /// Sorted most severe first.
    pub issues: Vec<DeckLegalityIssue>,
    pub violations: Vec<DeckRuleViolation>,
    /// Per-printing status for every entry belonging to an offending name.
    pub card_statuses: BTreeMap<String, String>,
    /// Cards whose catalog row carries no legality data at all.
    pub unknown_count: i64,
    /// No card issues and no error-severity violation.
    pub legal: bool,
}

/// One bar of a distribution (a mana-value bucket, a colour, a card type).
#[derive(Debug, Clone)]
pub struct DeckStatItem {
    /// Stable bucket identifier (`"3"`, `"W"`, `"Creature"`).
    pub key: String,
    pub label: String,
    pub count: i64,
    /// Advisory hex swatch for the buckets that have a canonical colour.
    pub color: Option<String>,
}

/// How many copies of one card **name** a pool holds.
#[derive(Debug, Clone)]
pub struct DeckCardOdds {
    pub name: String,
    pub copies: i64,
}

/// One rung of Wizards' 1–5 Commander bracket ladder.
#[derive(Debug, Clone)]
pub struct DeckBracketLevel {
    /// 1–5.
    pub bracket: i64,
    /// The rung's name (`"Upgraded"`).
    pub label: String,
    pub description: String,
}

/// One card counted towards a bracket category.
#[derive(Debug, Clone)]
pub struct DeckBracketCard {
    /// External card id of one printing (for links).
    pub card_id: String,
    pub name: String,
    /// Copies of that name across the deck proper (regular + foil, every section).
    pub quantity: i64,
}

/// What the deck holds in one bracket category.
#[derive(Debug, Clone)]
pub struct DeckBracketCategory {
    /// `game_changer` | `mass_land_denial` | `extra_turn` | `tutor`.
    pub signal: String,
    pub label: String,
    pub description: String,
    /// Distinct card **names** — a card held in two arts counts once.
    pub count: i64,
    /// Whether this category is what put the estimate where it is.
    pub decisive: bool,
    /// The matched cards in the deck's own order, capped (`count` stays exact).
    pub cards: Vec<DeckBracketCard>,
}

/// Where a deck sits on the Commander bracket ladder, estimated from its cards.
#[derive(Debug, Clone)]
pub struct DeckBracketEstimate {
    /// Always `commander` — the estimate is null for every other format.
    pub format_key: String,
    pub format_label: String,
    /// The lowest bracket the deck's cards don't rule out: 2, 3 or 4. Never 1 or 5,
    /// both of which are claims about intent a decklist can't settle.
    pub bracket: i64,
    pub label: String,
    pub description: String,
    /// All five rungs, so a client can draw the ladder without its own copy of it.
    pub ladder: Vec<DeckBracketLevel>,
    /// Why the estimate landed where it did, most decisive first.
    pub reasons: Vec<String>,
    /// What the estimate could not see. Never empty — the floor is only meaningful
    /// alongside the reasons it might be too low.
    pub caveats: Vec<String>,
    /// Every category, in a stable order, whether or not the deck holds any.
    pub categories: Vec<DeckBracketCategory>,
    /// Whether the deck also clears the extra bar bracket 1 sets.
    pub exhibition_possible: bool,
}

/// One deck that wants a [`NeededCard`], in the game's cross-deck needed list.
#[derive(Debug, Clone)]
pub struct NeededCardDeck {
    pub id: i64,
    pub name: String,
}

/// The money and the size of a shopping list, folded once so "12 cards, ~$41" needs
/// no re-summing of the lines.
#[derive(Debug, Clone)]
pub struct NeededTotals {
    /// Distinct entries in the list.
    pub cards: i64,
    /// Copies to acquire: the sum of every entry's `needed`.
    pub copies: i64,
    /// The sum of every entry's `held_usd`; null when no entry is priced that way.
    /// While `held_unpriced_cards` is non-zero this is a floor.
    pub held_usd: Option<String>,
    /// Entries whose `held_usd` is null.
    pub held_unpriced_cards: i64,
    /// The sum of every entry's `cheapest_usd`; null when no entry has a priced
    /// printing at all. While `cheapest_unpriced_cards` is non-zero this is a floor.
    pub cheapest_usd: Option<String>,
    /// Entries whose `cheapest_usd` is null.
    pub cheapest_unpriced_cards: i64,
}

/// One card the decks need more copies of than the collection holds.
#[derive(Debug, Clone)]
pub struct NeededCard {
    pub card: Card,
    pub required: i64,
    pub owned: i64,
    pub needed: i64,
    pub decks: Vec<NeededCardDeck>,
    pub held_usd: Option<String>,
    pub cheapest_usd: Option<String>,
}

/// The shortfall across every deck of a game, or one deck's share of it.
#[derive(Debug, Clone)]
pub struct NeededList {
    pub data: Vec<NeededCard>,
    pub deck: Option<NeededCardDeck>,
    pub totals: NeededTotals,
}

/// The exact printing behind some of the copies a deck holds of a card — deck
/// proper and maybeboard alike.
#[derive(Debug, Clone)]
pub struct CardDeckPrintingRef {
    pub id: String,
    pub set_code: String,
    pub collector_number: String,
    /// Copies of this exact printing in the deck (regular + foil, **maybeboard
    /// included**) — so the printings span both [`CardDeckRef::quantity`] and
    /// [`CardDeckRef::maybeboard_quantity`], not `quantity` alone.
    pub quantity: i64,
}

/// One of the caller's decks that contains a card — any printing of it — with the
/// copies split between the deck proper and the maybeboard, so "runs it" and "only
/// considering it" read apart.
#[derive(Debug, Clone)]
pub struct CardDeckRef {
    pub deck: Deck,
    /// Copies (regular + foil, any printing) in the deck proper — maybeboards excluded.
    pub quantity: i64,
    /// Copies in the deck's maybeboard sections, counted apart from `quantity`.
    pub maybeboard_quantity: i64,
    /// The exact printings behind those copies, most copies first. May sum short of
    /// the totals above (a printing gone from the catalog is simply absent).
    pub printings: Vec<CardDeckPrintingRef>,
}

/// One of a deck's cards that makes a token, with how many copies the deck runs.
#[derive(Debug, Clone)]
pub struct DeckTokenSource {
    pub card_id: String,
    pub name: String,
    pub quantity: i64,
}

/// One token or emblem a deck's cards make, with the cards that make it.
#[derive(Debug, Clone)]
pub struct DeckToken {
    pub key: String,
    pub name: String,
    pub type_line: Option<String>,
    pub card: Option<Card>,
    /// The makers, capped upstream; `source_count` is the exact figure.
    pub sources: Vec<DeckTokenSource>,
    pub source_count: i64,
}

/// The tokens a deck makes.
#[derive(Debug, Clone)]
pub struct DeckTokens {
    pub tokens: Vec<DeckToken>,
    pub unchecked_count: i64,
}

/// A dealt sample hand.
#[derive(Debug, Clone)]
pub struct GoldfishHand {
    pub seed: i64,
    pub mulligans: i64,
    pub opening: i64,
    pub draws: i64,
    pub to_bottom: i64,
    pub hand: Vec<Card>,
    pub bottomed: Vec<Card>,
    pub library_size: i64,
    pub library_total: i64,
    pub section_ids: Vec<i64>,
}

/// The cheapest printing of a card at a row's own finish split.
#[derive(Debug, Clone)]
pub struct DeckCheapestPrinting {
    pub card: Card,
    pub price_usd: String,
}

/// One row of a deck priced as held, beside its cheapest printing.
#[derive(Debug, Clone)]
pub struct DeckPricingLine {
    pub card: Card,
    pub section_id: i64,
    pub quantity: i64,
    pub foil_quantity: i64,
    pub price_usd: Option<String>,
    pub cheapest: Option<DeckCheapestPrinting>,
    pub saving_usd: Option<String>,
}

/// A deck priced as held and at its cheapest printings.
#[derive(Debug, Clone)]
pub struct DeckPricing {
    pub lines: Vec<DeckPricingLine>,
    pub total_usd: Option<String>,
    pub cheapest_total_usd: Option<String>,
    pub saving_usd: Option<String>,
    pub unpriced_count: i64,
    pub swappable_count: i64,
}

/// One piece of a combo, judged against a deck.
#[derive(Debug, Clone)]
pub struct DeckComboPiece {
    /// The card's gameplay identity (Scryfall `oracle_id`) — pieces match on this,
    /// so any printing counts.
    pub oracle_id: String,
    pub name: String,
    /// Copies the combo needs.
    pub quantity: i64,
    /// Whether it has to be in the command zone.
    pub must_be_commander: bool,
    /// Whether the deck proper holds the card at all (any zone, any number).
    pub in_deck: bool,
    /// A printing to link to: the deck's own where it holds the card, else the
    /// catalog's newest; null when the catalog holds none.
    pub card_id: Option<String>,
}

/// One thing a combo still needs.
#[derive(Debug, Clone)]
pub struct DeckComboMissing {
    /// The card's or template's name.
    pub name: String,
    /// Why it's missing: `card` | `template` | `commander`.
    pub kind: String,
    pub card_id: Option<String>,
}

/// One Commander Spellbook combo against a deck — the source's own datum (the
/// wire's `ComboSummary`) flattened together with what this deck has and lacks.
#[derive(Debug, Clone)]
pub struct DeckCombo {
    /// Commander Spellbook's variant id (`"245-2034-6705"`).
    pub id: String,
    /// The combo's page on Commander Spellbook — the link the source's terms ask for.
    pub url: String,
    /// Colour identity letters in WUBRG order; empty for colourless.
    pub identity: Vec<String>,
    /// The step-by-step description.
    pub description: String,
    /// Upstream's popularity counter — higher is more played.
    pub popularity: i64,
    /// Wildcard requirements the app can't evaluate ("A free sacrifice outlet").
    pub templates: Vec<String>,
    /// What it produces — the results a player cares about, by name.
    pub produces: Vec<String>,
    /// Upstream's bracket tag (`"C"` casual, `"R"` ruthless, …); null when unset.
    pub bracket_tag: Option<String>,
    /// Mana to start it, Scryfall-style (`"{6}"`); null when none is needed.
    pub mana_needed: Option<String>,
    pub mana_value_needed: Option<i64>,
    /// Prerequisites beyond the pieces themselves; null when none.
    pub prerequisites: Option<String>,
    /// Every piece, in the combo's own order.
    pub pieces: Vec<DeckComboPiece>,
    /// What the deck still needs — empty for a combo it can assemble.
    pub missing: Vec<DeckComboMissing>,
}

/// Everything a deck's combo read says.
#[derive(Debug, Clone)]
pub struct DeckCombos {
    /// Combos the deck proper can assemble: fewest pieces first, then most-played.
    /// Capped upstream — `combo_count` is exact.
    pub combos: Vec<DeckCombo>,
    pub combo_count: i64,
    /// Combos exactly one card (or template, or commander swap) away, most-played
    /// first. Capped upstream — `almost_count` is exact.
    pub almost: Vec<DeckCombo>,
    pub almost_count: i64,
    /// Whether any combo data is present at all. `false` means the dataset hasn't
    /// been synced — an empty `combos` is then "unknown", never "none".
    pub available: bool,
    /// Where the data comes from, for the attribution the source asks for.
    pub source: String,
    pub source_url: String,
}

/// One spell counted against a colour — a card whose cost holds hard pips of it.
#[derive(Debug, Clone)]
pub struct DeckManaDemandCard {
    pub card_id: String,
    pub name: String,
    /// Copies of that name across the deck it's cast from.
    pub quantity: i64,
    /// The cost as read — the front half of a split card.
    pub mana_cost: String,
    /// Pips of this colour in that cost.
    pub pips: i64,
    /// The mana value of that cost — the turn the spell is meant to be cast on.
    pub turn: i64,
    /// The table row this spell was judged as (`"1CC"`), after clamping.
    pub cost_key: String,
    /// Whether the cost also holds hard pips of another colour, which adds one to
    /// the requirement (Karsten's gold-card rule).
    pub gold: bool,
    /// Sources of this colour a deck this size needs to cast it on curve.
    pub sources_needed: i64,
    /// Whether the cost holds an `{X}` — listed, but never allowed to set the
    /// colour's requirement.
    pub x_cost: bool,
    /// Whether the spell had to be clamped onto the table to be judged at all —
    /// then `cost_key` is not the cost's own row.
    pub clamped: bool,
}

/// One card in the library that produces a colour.
#[derive(Debug, Clone)]
pub struct DeckManaSource {
    pub card_id: String,
    pub name: String,
    /// Copies of that name in the library — each one is one source.
    pub quantity: i64,
    /// Whether the card is a land; a nonland producer counts the same here, and the
    /// split is reported so a reader can weigh it.
    pub land: bool,
}

/// One colour's ledger: what the deck asks for, what the library gives, the verdict.
#[derive(Debug, Clone)]
pub struct DeckManaColor {
    /// `W` / `U` / `B` / `R` / `G` / `C`.
    pub color: String,
    /// `"White"`, …, `"Colorless"`.
    pub label: String,
    /// Hard pips of this colour across the deck it's cast from, copy-weighted.
    pub pips: i64,
    /// Pips this colour *could* pay (hybrid, twobrid, Phyrexian) — reported, never
    /// counted against the colour.
    pub hybrid_pips: i64,
    /// Distinct card names with a hard pip of this colour.
    pub demand_count: i64,
    /// Those cards, most demanding first, capped upstream.
    pub demand: Vec<DeckManaDemandCard>,
    /// Sources in the library, copy-weighted: lands and nonland producers alike.
    pub sources: i64,
    pub land_sources: i64,
    pub nonland_sources: i64,
    /// Distinct card names producing this colour.
    pub source_count: i64,
    /// Those cards, lands first, capped upstream.
    pub source_cards: Vec<DeckManaSource>,
    /// Sources the most demanding spell needs, or null when nothing demands the
    /// colour.
    pub sources_needed: Option<i64>,
    /// `max(0, sources_needed - sources)`.
    pub shortfall: i64,
    /// `enough` | `short` | `no_demand` | `undecided`.
    pub status: String,
    /// One ready-to-render sentence ("Short 2 black sources").
    pub verdict: String,
}

/// A deck's colour requirements against its sources, judged with Frank Karsten's
/// 2022 tables. Demand is the library plus the command zone; supply is the library.
#[derive(Debug, Clone)]
pub struct DeckManaBase {
    /// Copies in the deck the spells are cast from: the library plus the command zone.
    pub deck_size: i64,
    /// The table column the deck was judged against: 40, 60, 80 or 99.
    pub table_size: i64,
    /// Copies in the library — the sources' pool.
    pub library_size: i64,
    /// Land copies in the library.
    pub land_count: i64,
    /// One ledger per colour the deck demands or produces, WUBRG-then-colourless.
    pub colors: Vec<DeckManaColor>,
    /// Distinct library cards whose catalog row hasn't been checked for what it
    /// produces; while non-zero every source count is a floor.
    pub unchecked_count: i64,
    /// What the numbers assume. Never empty — a threshold is only honest beside
    /// its model.
    pub caveats: Vec<String>,
    /// Where the thresholds come from.
    pub source: String,
}

/// One card counted towards a deckbuilding role.
#[derive(Debug, Clone)]
pub struct DeckRoleCard {
    pub card_id: String,
    pub name: String,
    /// Copies of that name across the deck proper.
    pub quantity: i64,
}

/// What a deck holds in one role. `role` stays a plain string, so a role the API
/// grows still renders.
#[derive(Debug, Clone)]
pub struct DeckRoleGroup {
    /// `ramp` | `card_draw` | `removal` | `board_wipe` | `counterspell` | `tutor` |
    /// `recursion` | `protection`.
    pub role: String,
    pub label: String,
    /// What the role counts, and the near-miss it deliberately doesn't.
    pub description: String,
    /// Distinct card **names** in this role — a card held in two arts counts once.
    pub count: i64,
    /// Copies (regular + foil) across those names.
    pub copies: i64,
    /// The matched cards in the deck's own order, capped upstream (`count` stays
    /// exact).
    pub cards: Vec<DeckRoleCard>,
}

/// How many pieces of each deckbuilding role a deck holds, read off rules text over
/// the deck proper. The roles aren't a partition — a card may fill several, and
/// most creatures and every land fill none.
#[derive(Debug, Clone)]
pub struct DeckRoles {
    /// Every role, in a stable order, whether or not the deck holds any.
    pub roles: Vec<DeckRoleGroup>,
    /// The roles each printing fills, keyed by external card id. **Maybeboards are
    /// in this map** although they're out of every count above.
    pub card_roles: BTreeMap<String, Vec<String>>,
    /// Distinct card names in the deck proper.
    pub card_count: i64,
    /// Distinct card names that matched no role.
    pub unclassified_count: i64,
}

/// One owned card the deck could play.
#[derive(Debug, Clone)]
pub struct DeckSuggestionCard {
    /// One printing the caller owns — the lowest catalog id among those held.
    pub card: Card,
    /// EDHREC's global popularity rank (1 = most played) — the sort key.
    pub edhrec_rank: i64,
    /// Copies owned across every printing (regular + foil).
    pub owned: i64,
    /// The roles the card fills; empty for a card the grammar can't place.
    pub roles: Vec<String>,
}

/// What the collection could add to the deck in one role, beside what it holds.
#[derive(Debug, Clone)]
pub struct DeckSuggestionRole {
    pub role: String,
    pub label: String,
    /// What the role counts — the roles read's own wording.
    pub description: String,
    /// Distinct cards in the deck proper already filling this role.
    pub in_deck: i64,
    /// Scanned candidates filling this role.
    pub count: i64,
    /// Those candidates by external card id into [`DeckSuggestions::cards`], most
    /// popular first, capped upstream (`count` stays exact).
    pub card_ids: Vec<String>,
}

/// Cards in the caller's collection this deck could play, ranked by EDHREC's global
/// popularity and grouped by role.
#[derive(Debug, Clone)]
pub struct DeckSuggestions {
    /// The command-zone cards whose identity the filter used.
    pub commanders: Vec<DeckCommander>,
    /// The identity candidates had to fit inside; `[]` is colourless and `None` means
    /// no colour filter applied.
    pub color_identity: Option<Vec<String>>,
    pub format_key: Option<String>,
    pub format_label: Option<String>,
    /// Owned cards (by gameplay identity) that passed every filter — exact.
    pub candidate_count: i64,
    /// How many of those were loaded and classified.
    pub scanned_count: i64,
    /// Every card `top` or a role names, once each.
    pub cards: Vec<DeckSuggestionCard>,
    /// The most popular candidates overall, by external card id into `cards`.
    pub top: Vec<String>,
    pub roles: Vec<DeckSuggestionRole>,
    pub unclassified_count: i64,
    pub caveats: Vec<String>,
}

/// One side of a deck comparison, named so the two columns can be captioned.
#[derive(Debug, Clone)]
pub struct DeckDiffSide {
    pub id: i64,
    pub name: String,
    pub format: Option<String>,
    /// Copies in the deck proper.
    pub total_cards: i64,
}

/// Counts of cards (names, not rows) per kind of change, over the deck-wide fold.
#[derive(Debug, Clone)]
pub struct DeckDiffSummary {
    pub added: i64,
    pub removed: i64,
    pub changed: i64,
    pub finish_changed: i64,
    pub unchanged: i64,
}

/// One card that differs between two decks (folded by name).
#[derive(Debug, Clone)]
pub struct DeckDiffEntry {
    pub card: Card,
    pub name: String,
    pub change: String,
    pub base_quantity: i64,
    pub other_quantity: i64,
    pub delta: i64,
    pub base_foil_quantity: i64,
    pub other_foil_quantity: i64,
}

/// One section with something to report, matched by name.
#[derive(Debug, Clone)]
pub struct DeckDiffSection {
    pub name: String,
    pub is_maybeboard: bool,
    pub base_section_id: Option<i64>,
    pub other_section_id: Option<i64>,
    pub entries: Vec<DeckDiffEntry>,
    pub unchanged: i64,
}

/// What changed between two decks.
#[derive(Debug, Clone)]
pub struct DeckDiff {
    pub base: DeckDiffSide,
    pub other: DeckDiffSide,
    pub summary: DeckDiffSummary,
    pub cards: Vec<DeckDiffEntry>,
    pub sections: Vec<DeckDiffSection>,
}

/// What an add-to-collection did. Deliberately not an import summary: the rows come
/// from the catalog, so the only way one fails to land is its card having left it.
#[derive(Debug, Clone)]
pub struct CollectionAdd {
    /// Distinct printings whose owned counts went up.
    pub cards: i64,
    /// Regular copies added on top of what was already owned.
    pub regular_copies: i64,
    /// Foil copies added on top of what was already owned.
    pub foil_copies: i64,
    /// Distinct cards that couldn't be added — no longer in the catalog.
    pub skipped_cards: i64,
}

/// Just enough of a precon's face card to label a row: the **external** card id,
/// its name, and whether an image exists.
#[derive(Debug, Clone)]
pub struct PreconFaceCard {
    pub card_id: String,
    pub name: String,
    pub has_image: bool,
}

/// A published decklist's header: what it is, when it came out, how big it is, and
/// the card that fronts it.
#[derive(Debug, Clone)]
pub struct PreconDeck {
    /// URL identity, stable across syncs (`turtle-power-tmc`).
    pub slug: String,
    pub game: String,
    pub name: String,
    /// The set the deck ships with, lowercased (`tmc`).
    pub set_code: String,
    /// That set's display name, when the catalog holds it.
    pub set_name: Option<String>,
    /// Upstream's category: "Commander Deck", "Secret Lair Drop", "Jumpstart", …
    pub deck_type: String,
    pub released_at: Option<String>,
    /// Copies in the deck proper (mainboard + command zone).
    pub card_count: i64,
    /// Copies in the sideboard, counted apart from `card_count`.
    pub sideboard_count: i64,
    /// `["W","U"]`, `[]` for colourless, and **null** when there's nothing to read
    /// a colour off — the same three-way convention a deck's colour identity uses.
    pub color_identity: Option<Vec<String>>,
    /// The deck's commander, else the first card upstream lists; null when that card
    /// is no longer in the catalog.
    pub face_card: Option<PreconFaceCard>,
    /// Estimated USD value of the deck proper (sideboard excluded, the same grain
    /// as `card_count`), a 2-dp decimal string; null when none of its cards are
    /// priced — never `"0.00"`.
    pub price_usd: Option<String>,
}

/// One bucket of precons — a set, or a deck type. Grouped pages paginate by
/// *group*, so a group's decks are never split across a page boundary.
#[derive(Debug, Clone)]
pub struct PreconGroup {
    /// The set code (`tmc`) when grouping by set, a slugified deck type
    /// (`commander-deck`) when grouping by type.
    pub slug: String,
    pub title: String,
    /// The set code this group links to; null for a type group.
    pub set_code: Option<String>,
    /// The set's release date when grouping by set; always null by type.
    pub released_at: Option<String>,
    pub deck_count: i64,
    pub decks: Vec<PreconDeck>,
}

/// A deck type that actually occurs, with how many decks carry it.
#[derive(Debug, Clone)]
pub struct PreconTypeRef {
    pub type_: String,
    pub count: i64,
}

/// A set that has precons (code + resolved name + count), for the set filter.
#[derive(Debug, Clone)]
pub struct PreconSetRef {
    pub code: String,
    pub name: Option<String>,
    pub released_at: Option<String>,
    pub count: i64,
}

/// The filter vocabulary for a game's precons: every type and set that has one,
/// published rather than hard-coded (upstream adds categories over time).
#[derive(Debug, Clone)]
pub struct PreconFacets {
    /// Deck types, most decks first.
    pub types: Vec<PreconTypeRef>,
    /// Sets that have precons, newest release first.
    pub sets: Vec<PreconSetRef>,
    /// Total precon decks for the game, before any filter.
    pub total: i64,
}

/// One card of a precon. A row is a **single** finish, unlike a deck card's
/// regular+foil pair, because that is how a published decklist states it.
#[derive(Debug, Clone)]
pub struct PreconCardEntry {
    pub card: Card,
    /// `commander` | `main` | `side`.
    pub board: String,
    pub quantity: i64,
    pub foil: bool,
}

/// The full single-precon view: the header, the value summary, every card in board
/// order, and the sealed product that ships it (when the catalog holds one).
#[derive(Debug, Clone)]
pub struct PreconDeckDetail {
    pub deck: PreconDeck,
    /// The format the deck's *type* states (`Commander Deck` -> `commander`), or
    /// null when the type states none.
    pub format: Option<String>,
    /// Value / copy aggregates over the deck proper (command zone + mainboard).
    pub summary: CollectionSummary,
    /// The same aggregates over the sideboard alone; all-zero when there isn't one.
    pub sideboard_summary: CollectionSummary,
    pub cards: Vec<PreconCardEntry>,
    /// The sealed product this deck ships in, when the catalog holds one.
    pub product: Option<Product>,
}

/// One preconstructed deck containing a card (any printing, on any board): the
/// deck's browse header plus how the card sits in it.
#[derive(Debug, Clone)]
pub struct CardPreconRef {
    pub precon: PreconDeck,
    /// Total copies of the card in the deck — any board, any printing, any finish.
    pub quantity: i64,
    /// `true` when every copy is foil (a foil-only inclusion).
    pub foil: bool,
    /// `true` when a copy sits in the command zone — the card *leads* this deck.
    pub commander: bool,
}

/// One kind's slice of a catalog search: the top matches, plus whether more
/// matched than the limit let through.
#[derive(Debug, Clone)]
pub struct SearchGroup<T> {
    pub data: Vec<T>,
    pub has_more: bool,
}

impl<T> Default for SearchGroup<T> {
    /// A group with no matches (a kind the server left out reads as this).
    fn default() -> (r: Self)
        ensures
            r.data@.len() == 0,
            !r.has_more,
    {
        SearchGroup { data: Vec::new(), has_more: false }
    }
}

/// A catalog-wide search: the top matches of each kind.
#[derive(Debug, Clone)]
pub struct SearchResults {
    /// Distinct card names, each as one representative printing.
    pub cards: SearchGroup<Card>,
    /// Sets by name or exact set code, each as the set list shows it.
    pub sets: SearchGroup<CardSet>,
    /// Sealed products (boxes, bundles, decks) by name.
    pub products: SearchGroup<Product>,
    /// Preconstructed decks by name.
    pub precons: SearchGroup<PreconDeck>,
    /// Rules keywords by name, never by reminder text.
    pub keywords: SearchGroup<Keyword>,
}

#[derive(Debug, Clone)]
pub struct PublicGameSummary {
    pub game: String,
    pub summary: CollectionSummary,
}

#[derive(Debug, Clone)]
pub struct PublicProfile {
    pub username: String,
    pub discriminator: i64,
    pub handle: String,
    pub member_since: String,
    /// Games whose **collection** the owner shares.
    pub games: Vec<PublicGameSummary>,
    /// Games whose **wish list** the owner shares — shared independently of the
    /// collection, so a game can appear in one list, both, or neither.
    pub wishlists: Vec<PublicGameSummary>,
}

/// One seat in a tracked game: who's sitting there, what they brought, where they
/// are on screen, what they're on, and how the game ended for them.
#[derive(Debug, Clone)]
pub struct LifePlayer {
    pub id: i64,
    /// Seat order within the session, 0-based and gap-free.
    pub position: i64,
    pub name: String,
    pub starting_life: i64,
    pub life: i64,
    /// Screen rotation in degrees (`0`, `90`, `180`, `270`).
    pub rotation: i64,
    /// `none` while the game is active, then `win` / `loss` / `draw`.
    pub result: String,
    pub deck_id: Option<i64>,
    pub deck_name: Option<String>,
    pub commander_card_id: Option<String>,
    pub commander_name: Option<String>,
}

/// A tracked game's header plus its seats — what the session list returns, and
/// what every write echoes back.
#[derive(Debug, Clone)]
pub struct LifeSession {
    pub id: i64,
    pub game: String,
    pub name: Option<String>,
    pub format: Option<String>,
    /// The total a new seat in this session starts on.
    pub starting_life: i64,
    /// Seat-placement layout slug: `rows` / `facing` / `facing-solo` / `sides` /
    /// `sides-solo` / `grid` / `pinwheel`.
    pub layout: String,
    /// Which counters beyond life this game tracks, in display order — any of
    /// `commander_damage` / `poison` / `energy` / `experience`. Empty for a game
    /// that only tracks life; `life` is always tracked and never listed.
    pub counters: Vec<String>,
    /// `active` or `finished`. Only an active session accepts edits.
    pub status: String,
    /// Seats in `position` order.
    pub players: Vec<LifePlayer>,
    pub started_at: String,
    pub finished_at: Option<String>,
    pub created_at: String,
    pub updated_at: String,
}

/// Where one of a seat's counters currently stands — folded out of the history, so
/// only counters a seat has actually moved appear (an absent entry is `0`). A seat's
/// life lives on the seat itself, not here.
#[derive(Debug, Clone)]
pub struct LifeCounter {
    /// `poison` / `energy` / `experience` / `commander_damage`.
    pub counter: String,
    pub player_id: i64,
    /// For `commander_damage`, the seat whose commander dealt it; null otherwise.
    pub source_player_id: Option<i64>,
    pub value: i64,
}

/// One recorded change. `delta` is what the change was; `life_after` is what it left
/// this row's `counter` on (the seat's life, for `life`).
#[derive(Debug, Clone)]
pub struct LifeEvent {
    pub id: i64,
    pub player_id: i64,
    pub delta: i64,
    pub life_after: i64,
    /// Which counter moved: `life` / `poison` / `energy` / `experience` /
    /// `commander_damage`. Defaults to `life` on a server that predates counters.
    pub counter: String,
    /// For `commander_damage`, the seat whose commander dealt it; null otherwise.
    pub source_player_id: Option<i64>,
    /// `adjust` (relative) or `set` (absolute correction).
    pub kind: String,
    pub created_at: String,
}

/// One tracked game in full: its header + seats, plus every recorded life change
/// in the order they happened. Returned by the detail read and by every write.
#[derive(Debug, Clone)]
pub struct LifeSessionDetail {
    pub session: LifeSession,
    /// Every non-life counter that has been moved, folded out of `events` — so the
    /// table's full state arrives without replaying the history client-side.
    pub counters: Vec<LifeCounter>,
    pub events: Vec<LifeEvent>,
}

/// What one life change returned: the seat as it now stands, plus the change that
/// was recorded. This — not the whole session — is what the life endpoint echoes.
#[derive(Debug, Clone)]
pub struct LifeChange {
    pub player: LifePlayer,
    /// Where the affected counter now stands, for a change to something other than
    /// `life` (whose value is the seat's own `life`).
    pub counter: Option<LifeCounter>,
    pub event: LifeEvent,
}

} // verus!
