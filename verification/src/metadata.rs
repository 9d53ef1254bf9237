//! The metadata decoded from the header of one raw frame.

use vstd::prelude::*;
use crate::header::{
    extract_float_value, extract_int_value, extract_string_value, float_value, int_value,
    is_keyword, opt_number_view, string_value, HeaderCard, HeaderCardView, Number, NumberView,
};
use crate::text::{chars_of, clone_opt, opt_view, same_text};

verus! {

/// Metadata of a raw frame. A field is absent where the header has no card for
/// it or the card's value cannot be coerced to the field's type.
pub struct FitsMetadata {
    pub object_name: Option<String>,
    pub ra: Option<String>,
    pub dec: Option<String>,
    pub date_obs: Option<String>,
    pub exposure: Option<Number>,
    pub gain: Option<i32>,
    pub offset: Option<i32>,
    pub telescope: Option<String>,
    pub instrument: Option<String>,
    pub filter: Option<String>,
    pub focal_length: Option<Number>,
    pub aperture: Option<Number>,
    pub image_width: Option<i32>,
    pub image_height: Option<i32>,
    pub stacked_frames: Option<i32>,
    pub software: Option<String>,
    /// Every card of the header as keyword and raw text, in header order.
    pub raw_headers: Vec<(String, String)>,
}

/// Metadata of a raw frame as mathematical values.
pub struct FitsMetadataView {
    pub object_name: Option<Seq<char>>,
    pub ra: Option<Seq<char>>,
    pub dec: Option<Seq<char>>,
    pub date_obs: Option<Seq<char>>,
    pub exposure: Option<NumberView>,
    pub gain: Option<i32>,
    pub offset: Option<i32>,
    pub telescope: Option<Seq<char>>,
    pub instrument: Option<Seq<char>>,
    pub filter: Option<Seq<char>>,
    pub focal_length: Option<NumberView>,
    pub aperture: Option<NumberView>,
    pub image_width: Option<i32>,
    pub image_height: Option<i32>,
    pub stacked_frames: Option<i32>,
    pub software: Option<Seq<char>>,
    pub raw_headers: Seq<(Seq<char>, Seq<char>)>,
}

/// The views of a list of keyword and text pairs.
pub open spec fn pairs_view(pairs: Seq<(String, String)>) -> Seq<(Seq<char>, Seq<char>)> {
    pairs.map_values(|p: (String, String)| (p.0@, p.1@))
}

/// The raw text that a header has for a keyword: that of the last card with
/// the keyword, if there is one.
pub open spec fn raw_field(pairs: Seq<(Seq<char>, Seq<char>)>, key: Seq<char>) -> Option<Seq<char>>
    decreases pairs.len(),
{
    if pairs.len() == 0 {
        None
    } else if pairs.last().0 == key {
        Some(pairs.last().1)
    } else {
        raw_field(pairs.drop_last(), key)
    }
}

impl View for FitsMetadata {
    type V = FitsMetadataView;

    open spec fn view(&self) -> FitsMetadataView {
        FitsMetadataView {
            object_name: opt_view(self.object_name),
            ra: opt_view(self.ra),
            dec: opt_view(self.dec),
            date_obs: opt_view(self.date_obs),
            exposure: opt_number_view(self.exposure),
            gain: self.gain,
            offset: self.offset,
            telescope: opt_view(self.telescope),
            instrument: opt_view(self.instrument),
            filter: opt_view(self.filter),
            focal_length: opt_number_view(self.focal_length),
            aperture: opt_number_view(self.aperture),
            image_width: self.image_width,
            image_height: self.image_height,
            stacked_frames: self.stacked_frames,
            software: opt_view(self.software),
            raw_headers: pairs_view(self.raw_headers@),
        }
    }
}

/// Metadata with every field absent and no raw header.
pub open spec fn empty_metadata() -> FitsMetadataView {
    FitsMetadataView {
        object_name: None,
        ra: None,
        dec: None,
        date_obs: None,
        exposure: None,
        gain: None,
        offset: None,
        telescope: None,
        instrument: None,
        filter: None,
        focal_length: None,
        aperture: None,
        image_width: None,
        image_height: None,
        stacked_frames: None,
        software: None,
        raw_headers: Seq::empty(),
    }
}

/// The metadata after one more card: the card joins the raw headers, and a
/// card with a known keyword sets its field, also to absent.
pub open spec fn with_card(m: FitsMetadataView, card: HeaderCardView) -> FitsMetadataView {
    let m = FitsMetadataView { raw_headers: m.raw_headers.push((card.key, card.raw)), ..m };
    let key = card.key;
    if key == "OBJECT"@ {
        FitsMetadataView { object_name: string_value(card), ..m }
    } else if key == "RA"@ {
        FitsMetadataView { ra: string_value(card), ..m }
    } else if key == "DEC"@ {
        FitsMetadataView { dec: string_value(card), ..m }
    } else if key == "DATE-OBS"@ {
        FitsMetadataView { date_obs: string_value(card), ..m }
    } else if key == "EXPTIME"@ || key == "EXPOSURE"@ {
        FitsMetadataView { exposure: float_value(card), ..m }
    } else if key == "GAIN"@ {
        FitsMetadataView { gain: int_value(card), ..m }
    } else if key == "OFFSET"@ {
        FitsMetadataView { offset: int_value(card), ..m }
    } else if key == "TELESCOP"@ {
        FitsMetadataView { telescope: string_value(card), ..m }
    } else if key == "INSTRUME"@ {
        FitsMetadataView { instrument: string_value(card), ..m }
    } else if key == "FILTER"@ {
        FitsMetadataView { filter: string_value(card), ..m }
    } else if key == "FOCALLEN"@ {
        FitsMetadataView { focal_length: float_value(card), ..m }
    } else if key == "APERTURE"@ {
        FitsMetadataView { aperture: float_value(card), ..m }
    } else if key == "NAXIS1"@ {
        FitsMetadataView { image_width: int_value(card), ..m }
    } else if key == "NAXIS2"@ {
        FitsMetadataView { image_height: int_value(card), ..m }
    } else if key == "STACKCNT"@ || key == "NCOMBINE"@ {
        FitsMetadataView { stacked_frames: int_value(card), ..m }
    } else if key == "SWCREATE"@ || key == "SOFTWARE"@ {
        FitsMetadataView { software: string_value(card), ..m }
    } else {
        m
    }
}

/// The metadata that a header gives: its cards taken in order, starting from
/// empty metadata.
pub open spec fn decoded(cards: Seq<HeaderCardView>) -> FitsMetadataView
    decreases cards.len(),
{
    if cards.len() == 0 {
        empty_metadata()
    } else {
        with_card(decoded(cards.drop_last()), cards.last())
    }
}

/// The views of a list of cards.
pub open spec fn cards_view(cards: Seq<HeaderCard>) -> Seq<HeaderCardView> {
    cards.map_values(|c: HeaderCard| c@)
}

impl FitsMetadata {
    /// Metadata with every field absent.
    pub fn new() -> (m: FitsMetadata)
        ensures
            m@ == empty_metadata(),
    {
        let m = FitsMetadata {
            object_name: None,
            ra: None,
            dec: None,
            date_obs: None,
            exposure: None,
            gain: None,
            offset: None,
            telescope: None,
            instrument: None,
            filter: None,
            focal_length: None,
            aperture: None,
            image_width: None,
            image_height: None,
            stacked_frames: None,
            software: None,
            raw_headers: Vec::new(),
        };
        assert(m@.raw_headers =~= Seq::empty());
        m
    }

    /// Takes one card into the metadata.
    pub fn record(&mut self, card: &HeaderCard)
        ensures
            final(self)@ == with_card(old(self)@, card@),
    {
        self.raw_headers.push((card.key.clone(), card.raw.clone()));
        assert(pairs_view(self.raw_headers@) =~= old(self)@.raw_headers.push(
            (card@.key, card@.raw),
        ));
        let key = chars_of(card.key.as_str());
        if is_keyword(&key, "OBJECT") {
            self.object_name = extract_string_value(card);
        } else if is_keyword(&key, "RA") {
            self.ra = extract_string_value(card);
        } else if is_keyword(&key, "DEC") {
            self.dec = extract_string_value(card);
        } else if is_keyword(&key, "DATE-OBS") {
            self.date_obs = extract_string_value(card);
        } else if is_keyword(&key, "EXPTIME") || is_keyword(&key, "EXPOSURE") {
            self.exposure = extract_float_value(card);
        } else if is_keyword(&key, "GAIN") {
            self.gain = extract_int_value(card);
        } else if is_keyword(&key, "OFFSET") {
            self.offset = extract_int_value(card);
        } else if is_keyword(&key, "TELESCOP") {
            self.telescope = extract_string_value(card);
        } else if is_keyword(&key, "INSTRUME") {
            self.instrument = extract_string_value(card);
        } else if is_keyword(&key, "FILTER") {
            self.filter = extract_string_value(card);
        } else if is_keyword(&key, "FOCALLEN") {
            self.focal_length = extract_float_value(card);
        } else if is_keyword(&key, "APERTURE") {
            self.aperture = extract_float_value(card);
        } else if is_keyword(&key, "NAXIS1") {
            self.image_width = extract_int_value(card);
        } else if is_keyword(&key, "NAXIS2") {
            self.image_height = extract_int_value(card);
        } else if is_keyword(&key, "STACKCNT") || is_keyword(&key, "NCOMBINE") {
            self.stacked_frames = extract_int_value(card);
        } else if is_keyword(&key, "SWCREATE") || is_keyword(&key, "SOFTWARE") {
            self.software = extract_string_value(card);
        }
    }

    /// The raw text of a keyword of the header, as its last card has it.
    pub fn raw_header(&self, key: &str) -> (r: Option<String>)
        ensures
            opt_view(r) == raw_field(self@.raw_headers, key@),
    {
        let ghost all = pairs_view(self.raw_headers@);
        let mut i: usize = self.raw_headers.len();
        assert(all.take(i as int) =~= all);
        while i > 0
            invariant
                i <= self.raw_headers.len(),
                all == pairs_view(self.raw_headers@),
                raw_field(all, key@) == raw_field(all.take(i as int), key@),
            decreases i,
        {
            let pair = &self.raw_headers[i - 1];
            assert(all.take(i as int).last() == (pair.0@, pair.1@));
            if same_text(pair.0.as_str(), key) {
                return Some(pair.1.clone());
            }
            assert(all.take(i as int).drop_last() =~= all.take(i - 1));
            i -= 1;
        }
        assert(all.take(0).len() == 0);
        None
    }

    /// A copy of this metadata.
    pub fn copy(&self) -> (m: FitsMetadata)
        ensures
            m@ == self@,
    {
        let mut raw: Vec<(String, String)> = Vec::new();
        let mut i: usize = 0;
        while i < self.raw_headers.len()
            invariant
                i <= self.raw_headers.len(),
                pairs_view(raw@) == pairs_view(self.raw_headers@).take(i as int),
            decreases self.raw_headers.len() - i,
        {
            let pair = &self.raw_headers[i];
            let ghost before = pairs_view(raw@);
            raw.push((pair.0.clone(), pair.1.clone()));
            assert(pairs_view(raw@) =~= before.push((pair.0@, pair.1@)));
            assert(pairs_view(self.raw_headers@).take(i + 1) =~= pairs_view(
                self.raw_headers@,
            ).take(i as int).push((pair.0@, pair.1@)));
            i += 1;
        }
        assert(pairs_view(self.raw_headers@).take(self.raw_headers.len() as int) =~= pairs_view(
            self.raw_headers@,
        ));
        FitsMetadata {
            object_name: clone_opt(&self.object_name),
            ra: clone_opt(&self.ra),
            dec: clone_opt(&self.dec),
            date_obs: clone_opt(&self.date_obs),
            exposure: copy_number(&self.exposure),
            gain: self.gain,
            offset: self.offset,
            telescope: clone_opt(&self.telescope),
            instrument: clone_opt(&self.instrument),
            filter: clone_opt(&self.filter),
            focal_length: copy_number(&self.focal_length),
            aperture: copy_number(&self.aperture),
            image_width: self.image_width,
            image_height: self.image_height,
            stacked_frames: self.stacked_frames,
            software: clone_opt(&self.software),
            raw_headers: raw,
        }
    }
}

/// A copy of an optional number.
pub fn copy_number(o: &Option<Number>) -> (r: Option<Number>)
    ensures
        opt_number_view(r) == opt_number_view(*o),
{
    match o {
        Some(n) => Some(n.copy()),
        None => None,
    }
}

/// Decodes the cards of a header into metadata.
pub fn parse_fits_metadata(cards: &Vec<HeaderCard>) -> (m: FitsMetadata)
    ensures
        m@ == decoded(cards_view(cards@)),
{
    let mut m = FitsMetadata::new();
    let mut i: usize = 0;
    while i < cards.len()
        invariant
            i <= cards.len(),
            m@ == decoded(cards_view(cards@).take(i as int)),
        decreases cards.len() - i,
    {
        let ghost next = cards_view(cards@).take(i + 1);
        assert(next.drop_last() =~= cards_view(cards@).take(i as int));
        assert(next.last() == cards@[i as int]@);
        m.record(&cards[i]);
        i += 1;
    }
    assert(cards_view(cards@).take(cards.len() as int) =~= cards_view(cards@));
    m
}

} // verus!
