//! The record that is kept between runs, and how it is restored and stored.
//!
//! Stored data is keyed by field name. A field that the stored data lacks
//! takes its default when the record is restored, so a record written before a
//! field was added still loads. Turning stored text into fields and back is
//! the host's work; what becomes of the fields is decided here.

use vstd::prelude::*;

verus! {

/// The label of a record that was never edited.
pub const DEFAULT_LABEL: &'static str = "Hello World!";

/// The value of a record that was never edited: the IEEE 754 single-precision
/// bit pattern of the decimal 2.7.
pub const DEFAULT_VALUE_BITS: u32 = 0x402C_CCCD;

/// The record as contracts see it.
#[verifier::ext_equal]
pub struct RecordView {
    pub username: Seq<char>,
    pub label: Seq<char>,
    pub value_bits: u32,
}

/// Stored data as contracts see it: for each field, what was found under its name.
#[verifier::ext_equal]
pub struct StoredView {
    pub username: Option<Seq<char>>,
    pub label: Option<Seq<char>>,
    pub value_bits: Option<u32>,
}

impl RecordView {
    /// The record of a first run: no username, the default label and value.
    pub open spec fn default_record() -> RecordView {
        RecordView {
            username: Seq::empty(),
            label: DEFAULT_LABEL@,
            value_bits: DEFAULT_VALUE_BITS,
        }
    }

    /// The record that stored fields restore: each field as stored, or its
    /// default where the stored data has none.
    pub open spec fn fill(stored: StoredView) -> RecordView {
        RecordView {
            username: match stored.username {
                Some(text) => text,
                None => Self::default_record().username,
            },
            label: match stored.label {
                Some(text) => text,
                None => Self::default_record().label,
            },
            value_bits: match stored.value_bits {
                Some(bits) => bits,
                None => Self::default_record().value_bits,
            },
        }
    }

    /// The record at startup: the default record where nothing usable is
    /// stored, else the stored fields with the gaps filled.
    pub open spec fn load(stored: Option<StoredView>) -> RecordView {
        match stored {
            Some(fields) => Self::fill(fields),
            None => Self::default_record(),
        }
    }

    /// What is stored of this record: every field, under its name.
    pub open spec fn save(self) -> StoredView {
        StoredView {
            username: Some(self.username),
            label: Some(self.label),
            value_bits: Some(self.value_bits),
        }
    }
}

/// The fields found in stored data, `None` for a field that the data lacks.
///
/// Data written by an earlier version lacks the fields added since; fields
/// that are stored but no longer part of the record have no place here and are
/// dropped by whoever decodes the data.
#[derive(Debug, Clone, PartialEq, Eq)]
pub struct StoredRecord {
    pub username: Option<String>,
    pub label: Option<String>,
    pub value_bits: Option<u32>,
}

impl View for StoredRecord {
    type V = StoredView;

    open spec fn view(&self) -> StoredView {
        StoredView {
            username: match self.username {
                Some(text) => Some(text@),
                None => None,
            },
            label: match self.label {
                Some(text) => Some(text@),
                None => None,
            },
            value_bits: self.value_bits,
        }
    }
}

/// What the host found in storage, as contracts see it.
pub open spec fn stored_view(stored: Option<StoredRecord>) -> Option<StoredView> {
    match stored {
        Some(fields) => Some(fields@),
        None => None,
    }
}

/// The part of the state that outlives the process.
///
/// `value_bits` holds the value as the bit pattern of a single-precision
/// number. The user interface keeps the value between 0 and 10; the record
/// itself takes any pattern.
#[derive(Debug, Clone, PartialEq, Eq)]
pub struct ApplicationRecord {
    pub username: String,
    pub label: String,
    pub value_bits: u32,
}

impl View for ApplicationRecord {
    type V = RecordView;

    open spec fn view(&self) -> RecordView {
        RecordView { username: self.username@, label: self.label@, value_bits: self.value_bits }
    }
}

impl Default for ApplicationRecord {
    /// The record of a first run.
    fn default() -> (record: ApplicationRecord)
        ensures
            record@ == RecordView::default_record(),
    {
        ApplicationRecord {
            username: String::new(),
            label: String::from_str(DEFAULT_LABEL),
            value_bits: DEFAULT_VALUE_BITS,
        }
    }
}

impl ApplicationRecord {
    /// Restores the record at startup.
    ///
    /// `stored` is `None` where there is no storage, where nothing was stored
    /// yet, and where what was stored could not be decoded: the result is then
    /// the default record. Otherwise each stored field is taken as it is and
    /// each missing one gets its default. Loading never fails.
    pub fn load(stored: Option<StoredRecord>) -> (record: ApplicationRecord)
        ensures
            record@ == RecordView::load(stored_view(stored)),
            stored is None ==> record@ == RecordView::default_record(),
            stored matches Some(fields) ==> {
                &&& record@.username == match fields.username {
                    Some(text) => text@,
                    None => Seq::<char>::empty(),
                }
                &&& record@.label == match fields.label {
                    Some(text) => text@,
                    None => DEFAULT_LABEL@,
                }
                &&& record@.value_bits == match fields.value_bits {
                    Some(bits) => bits,
                    None => DEFAULT_VALUE_BITS,
                }
            },
    {
        match stored {
            Some(fields) => {
                let username = match fields.username {
                    Some(text) => text,
                    None => String::new(),
                };
                let label = match fields.label {
                    Some(text) => text,
                    None => String::from_str(DEFAULT_LABEL),
                };
                let value_bits = match fields.value_bits {
                    Some(bits) => bits,
                    None => DEFAULT_VALUE_BITS,
                };
                ApplicationRecord { username, label, value_bits }
            },
            None => ApplicationRecord::default(),
        }
    }

    /// The fields to store at shutdown: all of them.
    pub fn save(&self) -> (stored: StoredRecord)
        ensures
            stored@ == self@.save(),
    {
        StoredRecord {
            username: Some(self.username.clone()),
            label: Some(self.label.clone()),
            value_bits: Some(self.value_bits),
        }
    }
}

/// A record that is stored and loaded again comes back as it was.
pub proof fn stored_record_loads_back(record: RecordView)
    ensures
        RecordView::load(Some(record.save())) == record,
{
}

/// Where stored data lacks a field, the restored record has that field's
/// default, and every field that is stored is restored as it is.
pub proof fn missing_fields_take_defaults(stored: StoredView)
    ensures
        RecordView::load(Some(stored)).username == match stored.username {
            Some(text) => text,
            None => Seq::<char>::empty(),
        },
        RecordView::load(Some(stored)).label == match stored.label {
            Some(text) => text,
            None => DEFAULT_LABEL@,
        },
        RecordView::load(Some(stored)).value_bits == match stored.value_bits {
            Some(bits) => bits,
            None => DEFAULT_VALUE_BITS,
        },
{
}

} // verus!
