use vstd::prelude::*;

verus! {

/// Descriptive metadata of one coffee of the catalog.
///
/// `altitude` is the growing altitude in tenths of a metre (2186.5 m is 21865).
pub struct Coffee {
    pub name: String,
    pub roastery: String,
    pub roast_date: String,
    pub roast_level: String,
    pub origin: String,
    pub region: String,
    pub farm: String,
    pub altitude: u32,
    pub variety: String,
    pub processing_method: String,
    pub tasting_notes: String,
    pub nickname: String,
}

/// The mathematical value of a `Coffee`: each text field as its characters.
pub struct CoffeeView {
    pub name: Seq<char>,
    pub roastery: Seq<char>,
    pub roast_date: Seq<char>,
    pub roast_level: Seq<char>,
    pub origin: Seq<char>,
    pub region: Seq<char>,
    pub farm: Seq<char>,
    pub altitude: u32,
    pub variety: Seq<char>,
    pub processing_method: Seq<char>,
    pub tasting_notes: Seq<char>,
    pub nickname: Seq<char>,
}

impl View for Coffee {
    type V = CoffeeView;

    open spec fn view(&self) -> CoffeeView {
        CoffeeView {
            name: self.name@,
            roastery: self.roastery@,
            roast_date: self.roast_date@,
            roast_level: self.roast_level@,
            origin: self.origin@,
            region: self.region@,
            farm: self.farm@,
            altitude: self.altitude,
            variety: self.variety@,
            processing_method: self.processing_method@,
            tasting_notes: self.tasting_notes@,
            nickname: self.nickname@,
        }
    }
}

impl Coffee {
    /// A field-by-field copy.
    pub fn duplicate(&self) -> (r: Coffee)
        ensures
            r@ == self@,
    {
        Coffee {
            name: self.name.clone(),
            roastery: self.roastery.clone(),
            roast_date: self.roast_date.clone(),
            roast_level: self.roast_level.clone(),
            origin: self.origin.clone(),
            region: self.region.clone(),
            farm: self.farm.clone(),
            altitude: self.altitude,
            variety: self.variety.clone(),
            processing_method: self.processing_method.clone(),
            tasting_notes: self.tasting_notes.clone(),
            nickname: self.nickname.clone(),
        }
    }
}

/// The review payload sent for one submission of the form.
pub struct FormData {
    pub brew_method: String,
    pub coffee: Coffee,
    pub weight: i32,
    pub water: i32,
    pub grind_size: i32,
    pub temperature: i32,
    pub rating: i32,
    pub funkiness: i32,
    pub acidity_bitterness: i32,
    pub strength: i32,
    pub notes: String,
}

/// The mathematical value of a `FormData`.
pub struct FormDataView {
    pub brew_method: Seq<char>,
    pub coffee: CoffeeView,
    pub weight: i32,
    pub water: i32,
    pub grind_size: i32,
    pub temperature: i32,
    pub rating: i32,
    pub funkiness: i32,
    pub acidity_bitterness: i32,
    pub strength: i32,
    pub notes: Seq<char>,
}

impl View for FormData {
    type V = FormDataView;

    open spec fn view(&self) -> FormDataView {
        FormDataView {
            brew_method: self.brew_method@,
            coffee: self.coffee@,
            weight: self.weight,
            water: self.water,
            grind_size: self.grind_size,
            temperature: self.temperature,
            rating: self.rating,
            funkiness: self.funkiness,
            acidity_bitterness: self.acidity_bitterness,
            strength: self.strength,
            notes: self.notes@,
        }
    }
}

} // verus!
