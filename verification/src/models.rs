//! Category payloads: the sub-records that extend a listing for one kind of posting.
//!
//! These are plain data. Each record has a view that replaces owned text by sequences of
//! characters, and a `clone` that is proved to keep that view.

use vstd::prelude::*;

verus! {

/// How a position is staffed.
#[derive(Debug, Clone, Copy, PartialEq, Eq)]
pub enum EmploymentType {
    FullTime,
    PartTime,
    ContractWork,
    EmployeeChoice,
}

/// A job posting.
#[derive(Debug, PartialEq)]
pub struct Job {
    pub employment_type: Option<EmploymentType>,
    pub job_title: Option<String>,
    pub compensation: Option<u64>,
    pub company_name: Option<String>,
}

/// What a [`Job`] holds.
pub struct JobView {
    pub employment_type: Option<EmploymentType>,
    pub job_title: Option<Seq<char>>,
    pub compensation: Option<u64>,
    pub company_name: Option<Seq<char>>,
}

impl View for Job {
    type V = JobView;

    open spec fn view(&self) -> JobView {
        JobView {
            employment_type: self.employment_type,
            job_title: self.job_title.deep_view(),
            compensation: self.compensation,
            company_name: self.company_name.deep_view(),
        }
    }
}

impl DeepView for Job {
    type V = JobView;

    open spec fn deep_view(&self) -> JobView {
        self@
    }
}

impl Clone for Job {
    fn clone(&self) -> (copy: Self)
        ensures
            copy@ == self@,
    {
        Job {
            employment_type: self.employment_type,
            job_title: self.job_title.clone(),
            compensation: self.compensation,
            company_name: self.company_name.clone(),
        }
    }
}

/// The span of time that a rent is quoted for.
#[derive(Debug, Clone, Copy, PartialEq, Eq)]
pub enum PerTimeRange {
    Day,
    Week,
    Month,
}

/// The kind of dwelling on offer.
#[derive(Debug, Clone, Copy, PartialEq, Eq)]
pub enum HousingType {
    Apartment,
    Condo,
    CottageOrCabin,
    Duplex,
    Flat,
    House,
    InLaw,
    Loft,
    TownHouse,
    Manufactured,
    AssistedLiving,
    Land,
}

/// A housing posting.
#[derive(Debug, PartialEq)]
pub struct Housing {
    pub rent: Option<u64>,
    pub per_time_range: Option<PerTimeRange>,
    pub sqft: Option<u64>,
    pub pet: Option<bool>,
    pub air_conditioning: Option<bool>,
    pub private_room: Option<bool>,
    pub housing_type: Option<HousingType>,
    pub laundry: Option<bool>,
    pub parking: Option<bool>,
    pub available_date: Option<String>,
    pub open_house_dates: Option<Vec<String>>,
}

/// What a [`Housing`] holds.
pub struct HousingView {
    pub rent: Option<u64>,
    pub per_time_range: Option<PerTimeRange>,
    pub sqft: Option<u64>,
    pub pet: Option<bool>,
    pub air_conditioning: Option<bool>,
    pub private_room: Option<bool>,
    pub housing_type: Option<HousingType>,
    pub laundry: Option<bool>,
    pub parking: Option<bool>,
    pub available_date: Option<Seq<char>>,
    pub open_house_dates: Option<Seq<Seq<char>>>,
}

impl View for Housing {
    type V = HousingView;

    open spec fn view(&self) -> HousingView {
        HousingView {
            rent: self.rent,
            per_time_range: self.per_time_range,
            sqft: self.sqft,
            pet: self.pet,
            air_conditioning: self.air_conditioning,
            private_room: self.private_room,
            housing_type: self.housing_type,
            laundry: self.laundry,
            parking: self.parking,
            available_date: self.available_date.deep_view(),
            open_house_dates: self.open_house_dates.deep_view(),
        }
    }
}

impl DeepView for Housing {
    type V = HousingView;

    open spec fn deep_view(&self) -> HousingView {
        self@
    }
}

impl Clone for Housing {
    fn clone(&self) -> (copy: Self)
        ensures
            copy@ == self@,
    {
        Housing {
            rent: self.rent,
            per_time_range: self.per_time_range,
            sqft: self.sqft,
            pet: self.pet,
            air_conditioning: self.air_conditioning,
            private_room: self.private_room,
            housing_type: self.housing_type,
            laundry: self.laundry,
            parking: self.parking,
            available_date: self.available_date.clone(),
            open_house_dates: self.open_house_dates.clone(),
        }
    }
}

/// The state of an article for sale.
#[derive(Debug, Clone, Copy, PartialEq, Eq)]
pub enum Condition {
    New,
    LikeNew,
    Excellent,
    Good,
    Fair,
    Salvage,
}

/// A for-sale posting.
#[derive(Debug, PartialEq)]
pub struct ForSale {
    pub make_or_manufacturer: Option<String>,
    pub model_name_or_number: Option<String>,
    pub size_dimensions: Option<String>,
    pub condition: Option<Condition>,
}

/// What a [`ForSale`] holds.
pub struct ForSaleView {
    pub make_or_manufacturer: Option<Seq<char>>,
    pub model_name_or_number: Option<Seq<char>>,
    pub size_dimensions: Option<Seq<char>>,
    pub condition: Option<Condition>,
}

impl View for ForSale {
    type V = ForSaleView;

    open spec fn view(&self) -> ForSaleView {
        ForSaleView {
            make_or_manufacturer: self.make_or_manufacturer.deep_view(),
            model_name_or_number: self.model_name_or_number.deep_view(),
            size_dimensions: self.size_dimensions.deep_view(),
            condition: self.condition,
        }
    }
}

impl DeepView for ForSale {
    type V = ForSaleView;

    open spec fn deep_view(&self) -> ForSaleView {
        self@
    }
}

impl Clone for ForSale {
    fn clone(&self) -> (copy: Self)
        ensures
            copy@ == self@,
    {
        ForSale {
            make_or_manufacturer: self.make_or_manufacturer.clone(),
            model_name_or_number: self.model_name_or_number.clone(),
            size_dimensions: self.size_dimensions.clone(),
            condition: self.condition,
        }
    }
}

/// A garage or moving sale.
#[derive(Debug, PartialEq)]
pub struct GarageOrMovingSales {
    pub garage_sale_start_time: Option<String>,
    pub garage_sale_dates: Option<Vec<String>>,
}

/// What a [`GarageOrMovingSales`] holds.
pub struct GarageOrMovingSalesView {
    pub garage_sale_start_time: Option<Seq<char>>,
    pub garage_sale_dates: Option<Seq<Seq<char>>>,
}

impl View for GarageOrMovingSales {
    type V = GarageOrMovingSalesView;

    open spec fn view(&self) -> GarageOrMovingSalesView {
        GarageOrMovingSalesView {
            garage_sale_start_time: self.garage_sale_start_time.deep_view(),
            garage_sale_dates: self.garage_sale_dates.deep_view(),
        }
    }
}

impl DeepView for GarageOrMovingSales {
    type V = GarageOrMovingSalesView;

    open spec fn deep_view(&self) -> GarageOrMovingSalesView {
        self@
    }
}

impl Clone for GarageOrMovingSales {
    fn clone(&self) -> (copy: Self)
        ensures
            copy@ == self@,
    {
        GarageOrMovingSales {
            garage_sale_start_time: self.garage_sale_start_time.clone(),
            garage_sale_dates: self.garage_sale_dates.clone(),
        }
    }
}

/// A class or an event.
#[derive(Debug, PartialEq)]
pub struct ClassesOrEvents {
    pub event_venue: Option<String>,
    pub event_start_date: Option<String>,
    pub event_duration: Option<u8>,
    pub event_features: Option<Vec<String>>,
}

/// What a [`ClassesOrEvents`] holds.
pub struct ClassesOrEventsView {
    pub event_venue: Option<Seq<char>>,
    pub event_start_date: Option<Seq<char>>,
    pub event_duration: Option<u8>,
    pub event_features: Option<Seq<Seq<char>>>,
}

impl View for ClassesOrEvents {
    type V = ClassesOrEventsView;

    open spec fn view(&self) -> ClassesOrEventsView {
        ClassesOrEventsView {
            event_venue: self.event_venue.deep_view(),
            event_start_date: self.event_start_date.deep_view(),
            event_duration: self.event_duration,
            event_features: self.event_features.deep_view(),
        }
    }
}

impl DeepView for ClassesOrEvents {
    type V = ClassesOrEventsView;

    open spec fn deep_view(&self) -> ClassesOrEventsView {
        self@
    }
}

impl Clone for ClassesOrEvents {
    fn clone(&self) -> (copy: Self)
        ensures
            copy@ == self@,
    {
        ClassesOrEvents {
            event_venue: self.event_venue.clone(),
            event_start_date: self.event_start_date.clone(),
            event_duration: self.event_duration,
            event_features: self.event_features.clone(),
        }
    }
}

/// A community posting.
#[derive(Debug, PartialEq)]
pub struct Community {
    pub garage_sale: Option<GarageOrMovingSales>,
    pub class_or_event: Option<ClassesOrEvents>,
    pub lost_or_found: Option<bool>,
    pub rideshare: Option<bool>,
}

/// What a [`Community`] holds.
pub struct CommunityView {
    pub garage_sale: Option<GarageOrMovingSalesView>,
    pub class_or_event: Option<ClassesOrEventsView>,
    pub lost_or_found: Option<bool>,
    pub rideshare: Option<bool>,
}

impl View for Community {
    type V = CommunityView;

    open spec fn view(&self) -> CommunityView {
        CommunityView {
            garage_sale: self.garage_sale.deep_view(),
            class_or_event: self.class_or_event.deep_view(),
            lost_or_found: self.lost_or_found,
            rideshare: self.rideshare,
        }
    }
}

impl DeepView for Community {
    type V = CommunityView;

    open spec fn deep_view(&self) -> CommunityView {
        self@
    }
}

impl Clone for Community {
    fn clone(&self) -> (copy: Self)
        ensures
            copy@ == self@,
    {
        Community {
            garage_sale: self.garage_sale.clone(),
            class_or_event: self.class_or_event.clone(),
            lost_or_found: self.lost_or_found,
            rideshare: self.rideshare,
        }
    }
}

} // verus!
