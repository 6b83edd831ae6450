//! Profiles.

use vstd::prelude::*;

verus! {

/// One profile record and the account that created it.
#[derive(Debug, PartialEq, Eq)]
pub struct Model {
    pub id: u128,
    pub creator: u128,
    pub id_no: String,
    pub name: String,
    pub phone: String,
    pub address: String,
    pub image: Option<u128>,
}

/// A profile, with its texts as sequences of characters.
pub struct ModelView {
    pub id: u128,
    pub creator: u128,
    pub id_no: Seq<char>,
    pub name: Seq<char>,
    pub phone: Seq<char>,
    pub address: Seq<char>,
    pub image: Option<u128>,
}

impl View for Model {
    type V = ModelView;

    open spec fn view(&self) -> ModelView {
        ModelView {
            id: self.id,
            creator: self.creator,
            id_no: self.id_no@,
            name: self.name@,
            phone: self.phone@,
            address: self.address@,
            image: self.image,
        }
    }
}

impl DeepView for Model {
    type V = ModelView;

    open spec fn deep_view(&self) -> ModelView {
        self@
    }
}

impl Clone for Model {
    fn clone(&self) -> (copy: Self)
        ensures
            copy@ == self@,
    {
        Model {
            id: self.id,
            creator: self.creator,
            id_no: self.id_no.clone(),
            name: self.name.clone(),
            phone: self.phone.clone(),
            address: self.address.clone(),
            image: self.image,
        }
    }
}

} // verus!
