use crate::catalog::Catalog;
use crate::models::{CoffeeView, FormData, FormDataView};
use vstd::prelude::*;

verus! {

/// The current values of every editable field of the review form.
pub struct FormState {
    pub brew_method: String,
    pub coffee: String,
    pub weight: i32,
    pub water: i32,
    pub grind_size: i32,
    pub temperature: i32,
    pub rating: i32,
    pub funkiness: i32,
    pub acidity_bitterness: i32,
    pub strength: i32,
    pub notes: String,
}

/// One edit of one field, as an input control reports it.
pub enum FormEvent {
    BrewMethod(String),
    Coffee(String),
    Weight(i32),
    Water(i32),
    GrindSize(i32),
    Temperature(i32),
    Rating(i32),
    Funkiness(i32),
    AcidityBitterness(i32),
    Strength(i32),
    Notes(String),
}

/// Why a submission could not be assembled.
pub enum SubmitError {
    /// The selected coffee key names no entry of the catalog.
    CoffeeNotFound(String),
}

/// The payload that a form with these fields and the given catalog coffee yields.
pub open spec fn payload_of(f: FormState, coffee: CoffeeView) -> FormDataView {
    FormDataView {
        brew_method: f.brew_method@,
        coffee,
        weight: f.weight,
        water: f.water,
        grind_size: f.grind_size,
        temperature: f.temperature,
        rating: f.rating,
        funkiness: f.funkiness,
        acidity_bitterness: f.acidity_bitterness,
        strength: f.strength,
        notes: f.notes@,
    }
}

/// The form after one event: the field that the event names takes its value, and
/// every other field keeps its own.
pub open spec fn apply_event(f: FormState, ev: FormEvent) -> FormState {
    match ev {
        FormEvent::BrewMethod(v) => FormState { brew_method: v, ..f },
        FormEvent::Coffee(v) => FormState { coffee: v, ..f },
        FormEvent::Weight(v) => FormState { weight: v, ..f },
        FormEvent::Water(v) => FormState { water: v, ..f },
        FormEvent::GrindSize(v) => FormState { grind_size: v, ..f },
        FormEvent::Temperature(v) => FormState { temperature: v, ..f },
        FormEvent::Rating(v) => FormState { rating: v, ..f },
        FormEvent::Funkiness(v) => FormState { funkiness: v, ..f },
        FormEvent::AcidityBitterness(v) => FormState { acidity_bitterness: v, ..f },
        FormEvent::Strength(v) => FormState { strength: v, ..f },
        FormEvent::Notes(v) => FormState { notes: v, ..f },
    }
}

impl FormState {
    /// The form as it first appears.
    pub fn new() -> (r: FormState)
        ensures
            r.brew_method@ == "pour-over"@,
            r.coffee@ == "ocean_grind"@,
            r.weight == 30,
            r.water == 500,
            r.grind_size == 12,
            r.temperature == 95,
            r.rating == 8,
            r.funkiness == 8,
            r.acidity_bitterness == 5,
            r.strength == 5,
            r.notes@ == Seq::<char>::empty(),
    {
        FormState {
            brew_method: "pour-over".to_owned(),
            coffee: "ocean_grind".to_owned(),
            weight: 30,
            water: 500,
            grind_size: 12,
            temperature: 95,
            rating: 8,
            funkiness: 8,
            acidity_bitterness: 5,
            strength: 5,
            notes: String::new(),
        }
    }

    /// Applies one field edit.
    pub fn update(&mut self, ev: FormEvent)
        ensures
            *final(self) == apply_event(*old(self), ev),
    {
        match ev {
            FormEvent::BrewMethod(v) => self.brew_method = v,
            FormEvent::Coffee(v) => self.coffee = v,
            FormEvent::Weight(v) => self.weight = v,
            FormEvent::Water(v) => self.water = v,
            FormEvent::GrindSize(v) => self.grind_size = v,
            FormEvent::Temperature(v) => self.temperature = v,
            FormEvent::Rating(v) => self.rating = v,
            FormEvent::Funkiness(v) => self.funkiness = v,
            FormEvent::AcidityBitterness(v) => self.acidity_bitterness = v,
            FormEvent::Strength(v) => self.strength = v,
            FormEvent::Notes(v) => self.notes = v,
        }
    }

    /// Assembles the payload of a submission: the current fields and the catalog entry of
    /// the selected coffee. A coffee key that the catalog lacks is reported as an error.
    pub fn submit(&self, catalog: &Catalog) -> (r: Result<FormData, SubmitError>)
        ensures
            match catalog.lookup(self.coffee@) {
                Some(c) => r matches Ok(d) && d@ == payload_of(*self, c),
                None => r matches Err(SubmitError::CoffeeNotFound(k)) && k@ == self.coffee@,
            },
    {
        match catalog.get(&self.coffee) {
            Some(c) => Ok(
                FormData {
                    brew_method: self.brew_method.clone(),
                    coffee: c,
                    weight: self.weight,
                    water: self.water,
                    grind_size: self.grind_size,
                    temperature: self.temperature,
                    rating: self.rating,
                    funkiness: self.funkiness,
                    acidity_bitterness: self.acidity_bitterness,
                    strength: self.strength,
                    notes: self.notes.clone(),
                },
            ),
            None => Err(SubmitError::CoffeeNotFound(self.coffee.clone())),
        }
    }
}

} // verus!
