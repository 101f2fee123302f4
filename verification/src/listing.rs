//! Listings: the posting record that boards hold, and its optional category payload.

use vstd::prelude::*;
use crate::models::{Community, CommunityView, ForSale, ForSaleView, Housing, HousingView, Job, JobView};

verus! {

/// The category payload of a listing: one optional sub-record per category.
///
/// Nothing ties the populated sub-records to the listing's `category` text, and nothing
/// stops several of them from being populated at once: the record is stored as given.
#[derive(Debug, PartialEq)]
pub struct Details {
    pub for_sale: Option<ForSale>,
    pub community: Option<Community>,
    pub housing: Option<Housing>,
    pub jobs: Option<Job>,
}

/// What a [`Details`] holds.
pub struct DetailsView {
    pub for_sale: Option<ForSaleView>,
    pub community: Option<CommunityView>,
    pub housing: Option<HousingView>,
    pub jobs: Option<JobView>,
}

impl View for Details {
    type V = DetailsView;

    open spec fn view(&self) -> DetailsView {
        DetailsView {
            for_sale: self.for_sale.deep_view(),
            community: self.community.deep_view(),
            housing: self.housing.deep_view(),
            jobs: self.jobs.deep_view(),
        }
    }
}

impl DeepView for Details {
    type V = DetailsView;

    open spec fn deep_view(&self) -> DetailsView {
        self@
    }
}

impl Clone for Details {
    fn clone(&self) -> (copy: Self)
        ensures
            copy@ == self@,
    {
        Details {
            for_sale: self.for_sale.clone(),
            community: self.community.clone(),
            housing: self.housing.clone(),
            jobs: self.jobs.clone(),
        }
    }
}

/// One posting. Every field is the caller's: `creator` is not checked against the party
/// that files the listing, and `post_id` need not be unique.
#[derive(Debug, PartialEq)]
pub struct ItemInfo {
    pub creator: near_sdk::AccountId,
    pub post_id: u64,
    pub date: near_sdk::Timestamp,
    pub category: String,
    pub title: String,
    pub description: String,
    pub image: Option<Vec<String>>,
    pub location: Option<String>,
    pub price: Option<u32>,
    pub details: Option<Details>,
}

/// What an [`ItemInfo`] holds.
pub struct ItemInfoView {
    pub creator: near_sdk::AccountId,
    pub post_id: u64,
    pub date: u64,
    pub category: Seq<char>,
    pub title: Seq<char>,
    pub description: Seq<char>,
    pub image: Option<Seq<Seq<char>>>,
    pub location: Option<Seq<char>>,
    pub price: Option<u32>,
    pub details: Option<DetailsView>,
}

impl View for ItemInfo {
    type V = ItemInfoView;

    open spec fn view(&self) -> ItemInfoView {
        ItemInfoView {
            creator: self.creator,
            post_id: self.post_id,
            date: self.date,
            category: self.category@,
            title: self.title@,
            description: self.description@,
            image: self.image.deep_view(),
            location: self.location.deep_view(),
            price: self.price,
            details: self.details.deep_view(),
        }
    }
}

impl DeepView for ItemInfo {
    type V = ItemInfoView;

    open spec fn deep_view(&self) -> ItemInfoView {
        self@
    }
}

impl Clone for ItemInfo {
    fn clone(&self) -> (copy: Self)
        ensures
            copy@ == self@,
    {
        ItemInfo {
            creator: self.creator.clone(),
            post_id: self.post_id,
            date: self.date,
            category: self.category.clone(),
            title: self.title.clone(),
            description: self.description.clone(),
            image: self.image.clone(),
            location: self.location.clone(),
            price: self.price,
            details: self.details.clone(),
        }
    }
}

} // verus!
