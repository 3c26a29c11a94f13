use vstd::prelude::*;

verus! {

/// One to-do record: a storage-assigned identifier and its text.
#[derive(Debug, Clone)]
pub struct Entry {
    pub id: u32,
    pub text: String,
}

/// The mathematical value of an `Entry`: the identifier and the text's
/// characters.
pub ghost struct EntryModel {
    pub id: u32,
    pub text: Seq<char>,
}

impl View for Entry {
    type V = EntryModel;

    open spec fn view(&self) -> EntryModel {
        EntryModel { id: self.id, text: self.text@ }
    }
}

/// The models of a sequence of entries, in order.
pub open spec fn views_of(es: Seq<Entry>) -> Seq<EntryModel> {
    es.map_values(|e: Entry| e@)
}

}
