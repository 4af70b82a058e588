//! The origin as a record: named fields with plain values, as they stand
//! in a configuration file or travel over a wire. The record has a fixed
//! shape, and a record of another shape is refused.

use vstd::prelude::*;
use vstd::string::*;
use crate::origin::{Origin, OriginView};
use crate::text::str_eq;

verus! {

/// The value of one field.
#[derive(Debug, Clone, PartialEq, Eq)]
pub enum FieldValue {
    Text(String),
    Flag(bool),
    /// The field is written out and holds nothing.
    Null,
}

#[derive(Debug, Clone, PartialEq, Eq)]
pub struct Field {
    pub name: String,
    pub value: FieldValue,
}

/// Why a record is no origin.
#[derive(Debug, Clone, PartialEq, Eq)]
pub enum RecordError {
    /// A field that must be there is not.
    MissingField(String),
    /// A field that the record does not know.
    UnknownField(String),
    /// A field that stands twice.
    DuplicateField(String),
    /// A field whose value is of the wrong kind.
    WrongKind(String),
}

pub enum FieldValueView {
    Text(Seq<char>),
    Flag(bool),
    Null,
}

pub struct FieldView {
    pub name: Seq<char>,
    pub value: FieldValueView,
}

pub enum RecordErrorView {
    MissingField(Seq<char>),
    UnknownField(Seq<char>),
    DuplicateField(Seq<char>),
    WrongKind(Seq<char>),
}

impl View for FieldValue {
    type V = FieldValueView;

    open spec fn view(&self) -> FieldValueView {
        match self {
            FieldValue::Text(t) => FieldValueView::Text(t@),
            FieldValue::Flag(b) => FieldValueView::Flag(*b),
            FieldValue::Null => FieldValueView::Null,
        }
    }
}

impl View for Field {
    type V = FieldView;

    open spec fn view(&self) -> FieldView {
        FieldView { name: self.name@, value: self.value@ }
    }
}

impl View for RecordError {
    type V = RecordErrorView;

    open spec fn view(&self) -> RecordErrorView {
        match self {
            RecordError::MissingField(n) => RecordErrorView::MissingField(n@),
            RecordError::UnknownField(n) => RecordErrorView::UnknownField(n@),
            RecordError::DuplicateField(n) => RecordErrorView::DuplicateField(n@),
            RecordError::WrongKind(n) => RecordErrorView::WrongKind(n@),
        }
    }
}

pub open spec fn fields_view(fields: Seq<Field>) -> Seq<FieldView> {
    Seq::new(fields.len(), |i: int| fields[i]@)
}

/// The name of the field that holds the URL.
pub open spec fn url_field() -> Seq<char> {
    "url"@
}

/// The name of the field that holds the token.
pub open spec fn token_field() -> Seq<char> {
    "token"@
}

/// Whether a record of an origin knows a field of this name.
pub open spec fn known(name: Seq<char>) -> bool {
    name == url_field() || name == token_field()
}

/// What has been read of a record so far: the URL once its field was
/// seen, and the token, or its absence, once its field was seen.
pub struct Partial {
    pub url: Option<Seq<char>>,
    pub token: Option<Option<Seq<char>>>,
}

/// Nothing read yet.
pub open spec fn blank() -> Partial {
    Partial { url: None, token: None }
}

/// Reading one more field. The URL must be text; the token is text or
/// null; no field may come twice, and no other field may come at all.
pub open spec fn read_field(p: Partial, f: FieldView) -> Result<Partial, RecordErrorView> {
    if f.name == url_field() {
        if p.url is Some {
            Err(RecordErrorView::DuplicateField(f.name))
        } else {
            match f.value {
                FieldValueView::Text(t) => Ok(Partial { url: Some(t), ..p }),
                _ => Err(RecordErrorView::WrongKind(f.name)),
            }
        }
    } else if f.name == token_field() {
        if p.token is Some {
            Err(RecordErrorView::DuplicateField(f.name))
        } else {
            match f.value {
                FieldValueView::Text(t) => Ok(Partial { token: Some(Some(t)), ..p }),
                FieldValueView::Null => Ok(Partial { token: Some(None), ..p }),
                FieldValueView::Flag(_) => Err(RecordErrorView::WrongKind(f.name)),
            }
        }
    } else {
        Err(RecordErrorView::UnknownField(f.name))
    }
}

/// Reading the fields in order, up to the first that is refused.
pub open spec fn read_fields(p: Partial, fields: Seq<FieldView>) -> Result<Partial, RecordErrorView>
    decreases fields.len(),
{
    if fields.len() == 0 {
        Ok(p)
    } else {
        match read_field(p, fields[0]) {
            Ok(q) => read_fields(q, fields.drop_first()),
            Err(e) => Err(e),
        }
    }
}

/// The origin that was read: the URL must have been there, the token need
/// not.
pub open spec fn finish(p: Partial) -> Result<OriginView, RecordErrorView> {
    match p.url {
        Some(url) => Ok(
            OriginView {
                url,
                token: match p.token {
                    Some(t) => t,
                    None => None,
                },
            },
        ),
        None => Err(RecordErrorView::MissingField(url_field())),
    }
}

/// The origin that a record stands for, or why it stands for none.
pub open spec fn spec_from_record(fields: Seq<FieldView>) -> Result<OriginView, RecordErrorView> {
    match read_fields(blank(), fields) {
        Ok(p) => finish(p),
        Err(e) => Err(e),
    }
}

/// The record of an origin: the URL, then the token, which is null where
/// the origin has none.
pub open spec fn spec_to_record(origin: OriginView) -> Seq<FieldView> {
    seq![
        FieldView { name: url_field(), value: FieldValueView::Text(origin.url) },
        FieldView {
            name: token_field(),
            value: match origin.token {
                Some(t) => FieldValueView::Text(t),
                None => FieldValueView::Null,
            },
        },
    ]
}

/// The two field names differ.
pub proof fn lemma_field_names_differ()
    ensures
        url_field() != token_field(),
        url_field().len() == 3,
        token_field().len() == 5,
{
    reveal_strlit("url");
    reveal_strlit("token");
    assert(url_field().len() != token_field().len());
}

/// An origin that is written as a record and read back is the same
/// origin.
pub proof fn lemma_record_round_trip(origin: OriginView)
    ensures
        spec_from_record(spec_to_record(origin)) == Ok::<OriginView, RecordErrorView>(origin),
{
    lemma_field_names_differ();
    let fields = spec_to_record(origin);
    let first = read_field(blank(), fields[0]);
    assert(first is Ok);
    let rest = fields.drop_first();
    assert(rest.len() == 1);
    assert(rest[0] == fields[1]);
    let second = read_field(first->Ok_0, rest[0]);
    assert(second is Ok);
    assert(rest.drop_first().len() == 0);
    assert(read_fields(second->Ok_0, rest.drop_first())
        == Ok::<Partial, RecordErrorView>(second->Ok_0));
    assert(read_fields(first->Ok_0, rest) == Ok::<Partial, RecordErrorView>(second->Ok_0));
    assert(read_fields(blank(), fields) == Ok::<Partial, RecordErrorView>(second->Ok_0));
}

/// Reading stops with an error at the latest where a field stands that
/// an origin does not know.
pub proof fn lemma_unknown_field_stops_reading(p: Partial, fields: Seq<FieldView>, i: int)
    requires
        0 <= i < fields.len(),
        !known(fields[i].name),
    ensures
        read_fields(p, fields) is Err,
    decreases fields.len(),
{
    if i > 0 {
        match read_field(p, fields[0]) {
            Ok(q) => {
                assert(fields.drop_first()[i - 1] == fields[i]);
                lemma_unknown_field_stops_reading(q, fields.drop_first(), i - 1);
            },
            Err(_) => {},
        }
    }
}

/// A record with a field that an origin does not know is refused,
/// wherever the field stands and whatever else the record holds.
pub proof fn lemma_unknown_field_is_refused(fields: Seq<FieldView>, i: int)
    requires
        0 <= i < fields.len(),
        !known(fields[i].name),
    ensures
        spec_from_record(fields) is Err,
{
    lemma_unknown_field_stops_reading(blank(), fields, i);
}

/// A record without a URL is refused.
pub proof fn lemma_url_is_required(p: Partial, fields: Seq<FieldView>)
    requires
        forall|i: int| 0 <= i < fields.len() ==> fields[i].name != url_field(),
        p.url is None,
    ensures
        read_fields(p, fields) matches Ok(q) ==> q.url is None,
        p == blank() ==> spec_from_record(fields) is Err,
    decreases fields.len(),
{
    if fields.len() > 0 {
        match read_field(p, fields[0]) {
            Ok(q) => {
                assert forall|i: int| 0 <= i < fields.drop_first().len() implies fields.drop_first()[i].name
                    != url_field() by {
                    assert(fields.drop_first()[i] == fields[i + 1]);
                }
                lemma_url_is_required(q, fields.drop_first());
            },
            Err(_) => {},
        }
    }
}

/// What an exec reading has seen so far, as a [`Partial`].
pub open spec fn partial_of(url: Option<String>, token: Option<Option<String>>) -> Partial {
    Partial {
        url: match url {
            Some(u) => Some(u@),
            None => None,
        },
        token: match token {
            Some(Some(t)) => Some(Some(t@)),
            Some(None) => Some(None),
            None => None,
        },
    }
}

pub open spec fn record_result_view(
    r: Result<Origin, RecordError>,
) -> Result<OriginView, RecordErrorView> {
    match r {
        Ok(o) => Ok(o@),
        Err(e) => Err(e@),
    }
}

impl Origin {
    /// The origin written as a record.
    pub fn to_record(&self) -> (res: Vec<Field>)
        ensures
            fields_view(res@) == spec_to_record(self@),
    {
        let mut fields: Vec<Field> = Vec::new();
        fields.push(Field { name: String::from_str("url"), value: FieldValue::Text(self.url.clone()) });
        let token = match &self.token {
            Some(t) => FieldValue::Text(t.clone()),
            None => FieldValue::Null,
        };
        fields.push(Field { name: String::from_str("token"), value: token });
        assert(fields_view(fields@) =~= spec_to_record(self@));
        fields
    }

    /// Reads an origin from a record. The record must hold the URL as
    /// text and may hold the token, as text or null; a field that comes
    /// twice or that an origin does not know is refused, and so is a value
    /// of the wrong kind. The first fault in the order of the fields is
    /// the one reported.
    pub fn from_record(fields: &Vec<Field>) -> (res: Result<Origin, RecordError>)
        ensures
            record_result_view(res) == spec_from_record(fields_view(fields@)),
    {
        let mut url: Option<String> = None;
        let mut token: Option<Option<String>> = None;
        let mut i: usize = 0;
        assert(fields_view(fields@).skip(0) == fields_view(fields@));
        while i < fields.len()
            invariant
                i <= fields.len(),
                read_fields(blank(), fields_view(fields@)) == read_fields(
                    partial_of(url, token),
                    fields_view(fields@).skip(i as int),
                ),
            decreases fields.len() - i,
        {
            let field = &fields[i];
            let ghost rest = fields_view(fields@).skip(i as int);
            proof {
                assert(rest[0] == field@);
                assert(rest.drop_first() == fields_view(fields@).skip(i + 1));
            }
            if str_eq(field.name.as_str(), "url") {
                if url.is_some() {
                    return Err(RecordError::DuplicateField(field.name.clone()));
                }
                match &field.value {
                    FieldValue::Text(t) => {
                        url = Some(t.clone());
                    },
                    _ => {
                        return Err(RecordError::WrongKind(field.name.clone()));
                    },
                }
            } else if str_eq(field.name.as_str(), "token") {
                if token.is_some() {
                    return Err(RecordError::DuplicateField(field.name.clone()));
                }
                match &field.value {
                    FieldValue::Text(t) => {
                        token = Some(Some(t.clone()));
                    },
                    FieldValue::Null => {
                        token = Some(None);
                    },
                    FieldValue::Flag(_) => {
                        return Err(RecordError::WrongKind(field.name.clone()));
                    },
                }
            } else {
                return Err(RecordError::UnknownField(field.name.clone()));
            }
            i = i + 1;
        }
        match url {
            Some(url) => Ok(
                Origin {
                    url,
                    token: match token {
                        Some(t) => t,
                        None => None,
                    },
                },
            ),
            None => Err(RecordError::MissingField(String::from_str("url"))),
        }
    }
}

} // verus!
