//! Catalog cards: the work items of the pipeline, and where their images go.

use vstd::prelude::*;
use vstd::string::StringExecFns;

verus! {

/// The image addresses of a card.
#[derive(Debug, Clone, PartialEq, Eq)]
pub struct CardImages {
    pub large: String,
}

/// One catalog entry. A card without image addresses has nothing to download.
#[derive(Debug, Clone, PartialEq, Eq)]
pub struct Card {
    pub id: String,
    pub name: String,
    pub image_uris: Option<CardImages>,
}

/// What a card is to the pipeline: an identifier, a display name and, where the
/// card has an image, the address to fetch it from.
pub struct CardView {
    pub id: Seq<char>,
    pub name: Seq<char>,
    pub url: Option<Seq<char>>,
}

impl View for CardImages {
    type V = Seq<char>;

    open spec fn view(&self) -> Seq<char> {
        self.large@
    }
}

impl View for Card {
    type V = CardView;

    open spec fn view(&self) -> CardView {
        CardView {
            id: self.id@,
            name: self.name@,
            url: match self.image_uris {
                Some(images) => Some(images@),
                None => None,
            },
        }
    }
}

impl CardImages {
    /// The images of a card, by the address of the large one.
    pub fn new(large: String) -> (images: CardImages)
        ensures
            images@ == large@,
    {
        CardImages { large }
    }
}

impl Card {
    /// A card with these fields.
    pub fn new(id: String, name: String, image_uris: Option<CardImages>) -> (card: Card)
        ensures
            card.id == id,
            card.name == name,
            card.image_uris == image_uris,
    {
        Card { id, name, image_uris }
    }

    /// The address the card's image is fetched from, if it has one.
    pub fn source_url(&self) -> (url: Option<&String>)
        ensures
            url is Some <==> self@.url is Some,
            url matches Some(u) ==> Some(u@) == self@.url,
    {
        match &self.image_uris {
            Some(images) => Some(&images.large),
            None => None,
        }
    }
}

/// The cards of a list, in order, as the pipeline sees them.
pub open spec fn card_views(cards: Seq<Card>) -> Seq<CardView> {
    Seq::new(cards.len(), |i: int| cards[i]@)
}

/// The file an image is stored in: the card's identifier with the image
/// extension, inside the output directory.
pub open spec fn destination_path_spec(dir: Seq<char>, id: Seq<char>) -> Seq<char> {
    dir + "/"@ + id + ".png"@
}

/// Builds the path of the file that the image of card `id` goes to.
pub fn destination_path(dir: &str, id: &str) -> (path: String)
    ensures
        path@ == destination_path_spec(dir@, id@),
{
    let mut path = String::from_str(dir);
    path.append("/");
    path.append(id);
    path.append(".png");
    path
}

/// Two cards share a destination file only if they share an identifier.
pub proof fn lemma_destination_path_injective(dir: Seq<char>, a: Seq<char>, b: Seq<char>)
    requires
        destination_path_spec(dir, a) == destination_path_spec(dir, b),
    ensures
        a == b,
{
    let head = dir + "/"@;
    let tail = ".png"@;
    let path_a = destination_path_spec(dir, a);
    let path_b = destination_path_spec(dir, b);
    assert(path_a.len() == head.len() + a.len() + tail.len());
    assert(path_b.len() == head.len() + b.len() + tail.len());
    assert forall|i: int| 0 <= i < a.len() implies a[i] == b[i] by {
        assert(path_a[head.len() + i] == a[i]);
        assert(path_b[head.len() + i] == b[i]);
    }
    assert(a =~= b);
}

} // verus!
