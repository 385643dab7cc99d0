//! Shaping requests, the font they are shaped against, and the calls into
//! the rustybuzz shaping engine.

use vstd::prelude::*;
use crate::text::{join, join_spec, views};

verus! {

#[verifier::external_type_specification]
#[verifier::external_body]
pub struct ExFace<'a>(rustybuzz::Face<'a>);

#[verifier::external_type_specification]
#[verifier::external_body]
pub struct ExFeature(rustybuzz::Feature);

#[verifier::external_type_specification]
#[verifier::external_body]
pub struct ExLanguage(rustybuzz::Language);

/// Whether rustybuzz reads `s` as a feature setting (`liga`, `-kern`,
/// `aalt[3:5]=2`, ...).
pub uninterp spec fn feature_parses(s: Seq<char>) -> bool;

/// Relies on rustybuzz's `Feature::from_str`: whether it accepts the text
/// depends on the text alone, and the empty text is refused.
pub assume_specification[ <rustybuzz::Feature as core::str::FromStr>::from_str ](
    s: &str,
) -> (r: Result<rustybuzz::Feature, <rustybuzz::Feature as core::str::FromStr>::Err>)
    ensures
        r is Ok <==> feature_parses(s@),
        s@.len() == 0 ==> r is Err,
;

/// Relies on rustybuzz's `Language::from_str`: every non-empty text is
/// accepted, the empty text is refused.
pub assume_specification[ <rustybuzz::Language as core::str::FromStr>::from_str ](
    s: &str,
) -> (r: Result<rustybuzz::Language, <rustybuzz::Language as core::str::FromStr>::Err>)
    ensures
        r is Ok <==> s@.len() > 0,
;

/// Whether rustybuzz reads `data` as a font with a face at `index`.
pub uninterp spec fn font_parses(data: Seq<u8>, index: u32) -> bool;

/// Relies on rustybuzz's `Face::from_slice`: whether the data parse as a
/// face depends on the data and the index alone.
pub assume_specification<'a>[ rustybuzz::Face::<'a>::from_slice ](
    data: &'a [u8],
    face_index: u32,
) -> (r: Option<rustybuzz::Face<'a>>)
    ensures
        r is Some <==> font_parses(data@, face_index),
;

/// The canonical form of what rustybuzz gives when it shapes `text` with the
/// feature settings `features`, in `language` where one is given, on the face
/// at `index` of the font `font`: each glyph's name, cluster, offsets and
/// advances, in order.
pub uninterp spec fn canonical_output(
    font: Seq<u8>,
    index: u32,
    text: Seq<char>,
    features: Seq<Seq<char>>,
    language: Option<Seq<char>>,
) -> Seq<char>;

/// Relies on rustybuzz's `shape` and on `GlyphBuffer::serialize` with the
/// default flags. The settings are parsed as `Feature` and `Language`, which
/// the `requires` makes certain to succeed; the output depends on the font,
/// the text and the settings alone. The checker's face is the one that
/// `Checker::new` read from its font and index, and nothing changes it.
#[verifier::external_body]
fn shape_canonical(
    checker: &Checker,
    text: &String,
    features: &Vec<String>,
    language: &Option<String>,
) -> (r: String)
    requires
        forall|i: int| 0 <= i < features@.len() ==> feature_parses(#[trigger] features@[i]@),
        language matches Some(l) ==> l@.len() > 0,
    ensures
        r@ == canonical_output(checker.font(), checker.index(), text@, views(features@), match language {
            Some(l) => Some(l@),
            None => None,
        }),
{
    let features: Vec<rustybuzz::Feature> = features.iter().map(|f| f.parse().unwrap()).collect();
    let mut buffer = rustybuzz::UnicodeBuffer::new();
    buffer.push_str(text);
    if let Some(l) = language {
        buffer.set_language(l.parse().unwrap());
    }
    rustybuzz::shape(&checker.face, &features, buffer).serialize(&checker.face, rustybuzz::SerializeFlags::default())
}

/// What a shaping run works against: the font, the face in it, and the names
/// of the OpenType features that the face exposes.
pub struct Checker<'a> {
    font: &'a [u8],
    index: u32,
    face: rustybuzz::Face<'a>,
    features: Vec<String>,
}

impl<'a> Checker<'a> {
    /// The names of the features that the face exposes.
    pub closed spec fn available(&self) -> Seq<String> {
        self.features@
    }

    /// The bytes of the font.
    pub closed spec fn font(&self) -> Seq<u8> {
        self.font@
    }

    /// The index of the face within the font.
    pub closed spec fn index(&self) -> u32 {
        self.index
    }

    /// A checker on the face at `index` of `font`, or `None` where rustybuzz
    /// does not read one there.
    pub fn new(font: &'a [u8], index: u32, features: Vec<String>) -> (r: Option<Checker<'a>>)
        ensures
            r is Some <==> font_parses(font@, index),
            r matches Some(c) ==> c.font() == font@ && c.index() == index && c.available() == features@,
    {
        match rustybuzz::Face::from_slice(font, index) {
            Some(face) => Some(Checker { font, index, face, features }),
            None => None,
        }
    }

    pub fn features(&self) -> (r: &Vec<String>)
        ensures
            r@ == self.available(),
    {
        &self.features
    }
}

/// Why a request could not be shaped.
#[derive(Debug, Clone)]
pub enum ShapingError {
    /// A feature setting that the engine does not read.
    InvalidFeature(String),
    /// An empty language tag.
    InvalidLanguage(String),
}

/// A request to shape a text with a set of features switched on, and
/// optionally in a given language.
#[derive(Debug, Clone)]
pub struct ShapingInput {
    pub text: String,
    pub features: Vec<String>,
    pub language: Option<String>,
}

/// The description of a request with the given fields.
pub open spec fn describe_spec(
    text: Seq<char>,
    features: Seq<Seq<char>>,
    language: Option<Seq<char>>,
) -> Seq<char> {
    "shaping the text '"@ + text + "'"@
        + (if features.len() == 0 {
        Seq::<char>::empty()
    } else {
        " with features: "@ + join_spec(features, ", "@)
    }) + match language {
        Some(l) => " in language "@ + l,
        None => Seq::<char>::empty(),
    }
}

impl ShapingInput {
    pub open spec fn language_view(&self) -> Option<Seq<char>> {
        match self.language {
            Some(l) => Some(l@),
            None => None,
        }
    }

    /// What a caller reads of this request.
    pub open spec fn description(&self) -> Seq<char> {
        describe_spec(self.text@, views(self.features@), self.language_view())
    }

    /// Whether the engine accepts every setting of this request.
    pub open spec fn shapeable(&self) -> bool {
        &&& forall|i: int| 0 <= i < self.features@.len() ==> feature_parses(#[trigger] self.features@[i]@)
        &&& match self.language {
            Some(l) => l@.len() > 0,
            None => true,
        }
    }

    pub fn new(text: String, features: Vec<String>, language: Option<String>) -> (r: ShapingInput)
        ensures
            r.text == text,
            r.features@ == features@,
            r.language == language,
    {
        ShapingInput { text, features, language }
    }

    /// A human-readable phrase naming the text, the features and the language.
    pub fn describe(&self) -> (r: String)
        ensures
            r@ == self.description(),
    {
        let mut out = String::new();
        out.append("shaping the text '");
        out.append(self.text.as_str());
        out.append("'");
        if self.features.len() > 0 {
            out.append(" with features: ");
            let joined = join(&self.features, ", ");
            out.append(joined.as_str());
        }
        match &self.language {
            Some(l) => {
                out.append(" in language ");
                out.append(l.as_str());
            },
            None => {},
        }
        proof {
            assert(views(self.features@).len() == self.features@.len());
        }
        out
    }

    /// What this request shapes to on the checker's face, in canonical form.
    pub open spec fn output(&self, checker: &Checker) -> Seq<char> {
        canonical_output(
            checker.font(),
            checker.index(),
            self.text@,
            views(self.features@),
            self.language_view(),
        )
    }

    /// Shapes this request on the checker's face and returns the canonical
    /// form of the glyphs. Fails exactly when a feature setting or the
    /// language is not accepted by the engine.
    pub fn shape(&self, checker: &Checker) -> (r: Result<String, ShapingError>)
        ensures
            r is Ok <==> self.shapeable(),
            r matches Ok(s) ==> s@ == self.output(checker),
            r matches Err(ShapingError::InvalidFeature(f)) ==> !feature_parses(f@),
            r matches Err(ShapingError::InvalidLanguage(l)) ==> l@.len() == 0,
    {
        let mut i: usize = 0;
        while i < self.features.len()
            invariant
                i <= self.features@.len(),
                forall|j: int| 0 <= j < i ==> feature_parses(#[trigger] self.features@[j]@),
            decreases self.features@.len() - i,
        {
            let parsed = <rustybuzz::Feature as core::str::FromStr>::from_str(self.features[i].as_str());
            if parsed.is_err() {
                return Err(ShapingError::InvalidFeature(self.features[i].clone()));
            }
            i = i + 1;
        }
        match &self.language {
            Some(l) => {
                let parsed = <rustybuzz::Language as core::str::FromStr>::from_str(l.as_str());
                if parsed.is_err() {
                    return Err(ShapingError::InvalidLanguage(l.clone()));
                }
            },
            None => {},
        }
        Ok(shape_canonical(checker, &self.text, &self.features, &self.language))
    }
}

} // verus!
