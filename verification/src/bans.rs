//! The bans endpoints.

use crate::model::bans::BanAddition;
use crate::poller::Poller;
use crate::request::{
    bare_request, flag_param, params_view, text_param, unsigned_param, BodyView, Method, Param,
    ParamView, PreparedRequest, RequestView,
};
use crate::violation::Violation;
use vstd::prelude::*;

verus! {

/// The field `name` with the number `value`, if there is one.
pub open spec fn optional_unsigned(name: Seq<char>, value: Option<u64>) -> Seq<ParamView> {
    match value {
        Some(n) => seq![unsigned_param(name, n)],
        None => Seq::empty(),
    }
}

/// The field `name` with the text `value`, if there is one.
pub open spec fn optional_text(name: Seq<char>, value: Option<Seq<char>>) -> Seq<ParamView> {
    match value {
        Some(t) => seq![text_param(name, t)],
        None => Seq::empty(),
    }
}

/// The field `name` with the flag `value`, if there is one.
pub open spec fn optional_flag(name: Seq<char>, value: Option<bool>) -> Seq<ParamView> {
    match value {
        Some(b) => seq![flag_param(name, b)],
        None => Seq::empty(),
    }
}

/// The form fields of a report: `user`, `reason` and `proof`, then each of
/// `mod`, `user_name`, `user_discriminator` and `appeal_possible` that has a
/// value.
pub open spec fn addition_fields(
    user_id: u64,
    reason: Seq<char>,
    proof: Seq<char>,
    moderator: Option<u64>,
    user_name: Option<Seq<char>>,
    user_discriminator: Option<u16>,
    appeal_possible: Option<bool>,
) -> Seq<ParamView> {
    seq![
        unsigned_param("user"@, user_id),
        text_param("reason"@, reason),
        text_param("proof"@, proof),
    ] + optional_unsigned("mod"@, moderator) + optional_text("user_name"@, user_name)
        + optional_unsigned(
        "user_discriminator"@,
        match user_discriminator {
            Some(d) => Some(d as u64),
            None => None,
        },
    ) + optional_flag("appeal_possible"@, appeal_possible)
}

impl BanAddition {
    /// The form fields that the report is sent as.
    pub open spec fn fields_view(self) -> Seq<ParamView> {
        addition_fields(
            self.user_id,
            self.reason@,
            self.proof@,
            self.moderator,
            self.user_name.deep_view(),
            self.user_discriminator,
            self.appeal_possible,
        )
    }

    /// The form fields that the report is sent as.
    pub fn fields(&self) -> (fields: Vec<Param>)
        ensures
            params_view(fields@) == self.fields_view(),
    {
        let mut fields: Vec<Param> = Vec::new();
        fields.push(Param::unsigned("user", self.user_id));
        fields.push(Param::text("reason", self.reason.as_str()));
        fields.push(Param::text("proof", self.proof.as_str()));
        if let Some(moderator) = self.moderator {
            fields.push(Param::unsigned("mod", moderator));
        }
        if let Some(user_name) = &self.user_name {
            fields.push(Param::text("user_name", user_name.as_str()));
        }
        if let Some(user_discriminator) = self.user_discriminator {
            fields.push(Param::unsigned("user_discriminator", user_discriminator as u64));
        }
        if let Some(appeal_possible) = self.appeal_possible {
            fields.push(Param::flag("appeal_possible", appeal_possible));
        }
        assert(params_view(fields@) =~= self.fields_view());
        fields
    }
}

/// Request for `per_page` bans of page `page` of the ban list.
pub open spec fn paginate_request(page: u8, per_page: u8) -> RequestView {
    bare_request(Method::Get, "/bans/list"@).query(
        unsigned_param("per_page"@, per_page as u64),
    ).query(unsigned_param("page"@, page as u64))
}

/// Request that reports a user.
pub open spec fn add_request(addition: BanAddition) -> RequestView {
    bare_request(Method::Post, "/bans/add"@).body(BodyView::Form(addition.fields_view()))
}

/// Request that asks whether `user_id` is banned.
pub open spec fn check_ban_request(user_id: u64) -> RequestView {
    bare_request(Method::Get, "/bans/check"@).query(unsigned_param("user"@, user_id))
}

/// Request for the details of the ban of `user_id`.
pub open spec fn ban_info_request(user_id: u64) -> RequestView {
    bare_request(Method::Get, "/bans/info"@).query(unsigned_param("user"@, user_id))
}

/// Request that deletes the ban of `user_id`; with `force`, the deletion is
/// forced.
pub open spec fn delete_request(user_id: u64, force: bool) -> RequestView {
    let plain = bare_request(Method::Delete, "/bans/delete"@).query(
        unsigned_param("user"@, user_id),
    );
    if force {
        plain.query(flag_param("force"@, true))
    } else {
        plain
    }
}

/// The bans endpoints.
#[derive(Clone, Copy, Debug)]
pub struct Bans {}

impl Bans {
    /// The group of the bans endpoints.
    pub fn new() -> (bans: Bans) {
        Bans {  }
    }

    /// Starts polling for ban updates at the time `now`, in seconds since
    /// the epoch.
    pub fn event_handler(&self, now: u64) -> (poller: Poller)
        requires
            now >= crate::poller::LOOKBACK_SECS,
        ensures
            poller.cursor() == now - crate::poller::LOOKBACK_SECS,
    {
        Poller::start(now)
    }

    /// Get a list of `per_page` bans from page `page`.
    pub fn advanced_paginate(&self, page: u8, per_page: u8) -> (r: PreparedRequest)
        ensures
            r@ == paginate_request(page, per_page),
    {
        PreparedRequest::get("/bans/list").query(Param::unsigned("per_page", per_page as u64)).query(
            Param::unsigned("page", page as u64),
        )
    }

    /// Shortcut to `advanced_paginate` for the first page, with 20 entries.
    pub fn paginate(&self) -> (r: PreparedRequest)
        ensures
            r@ == paginate_request(1, 20),
    {
        self.advanced_paginate(1, 20)
    }

    /// Reports a user.
    pub fn add(
        &self,
        user_id: u64,
        reason: &str,
        proof: &str,
        moderator: Option<u64>,
        user_name: Option<String>,
        user_discriminator: Option<u16>,
        appeal_possible: Option<bool>,
    ) -> (r: PreparedRequest)
        requires
            reason@.len() > 0,
            proof@.len() > 0,
        ensures
            r@ == bare_request(Method::Post, "/bans/add"@).body(
                BodyView::Form(
                    addition_fields(
                        user_id,
                        reason@,
                        proof@,
                        moderator,
                        user_name.deep_view(),
                        user_discriminator,
                        appeal_possible,
                    ),
                ),
            ),
    {
        let addition = BanAddition {
            user_id,
            reason: String::from_str(reason),
            proof: String::from_str(proof),
            moderator,
            user_name,
            user_discriminator,
            appeal_possible,
        };
        PreparedRequest::post("/bans/add").form(addition.fields())
    }

    /// Reports a user if the reason and the proof are not empty; otherwise
    /// says which of them is, the reason first.
    pub fn try_add(
        &self,
        user_id: u64,
        reason: &str,
        proof: &str,
        moderator: Option<u64>,
        user_name: Option<String>,
        user_discriminator: Option<u16>,
        appeal_possible: Option<bool>,
    ) -> (r: Result<PreparedRequest, Violation>)
        ensures
            reason@.len() == 0 ==> r == Err::<PreparedRequest, _>(Violation::EmptyReason),
            reason@.len() > 0 && proof@.len() == 0 ==> r == Err::<PreparedRequest, _>(
                Violation::EmptyProof,
            ),
            reason@.len() > 0 && proof@.len() > 0 ==> r is Ok && r.unwrap()@ == bare_request(
                Method::Post,
                "/bans/add"@,
            ).body(
                BodyView::Form(
                    addition_fields(
                        user_id,
                        reason@,
                        proof@,
                        moderator,
                        user_name.deep_view(),
                        user_discriminator,
                        appeal_possible,
                    ),
                ),
            ),
    {
        if reason.is_empty() {
            Err(Violation::EmptyReason)
        } else if proof.is_empty() {
            Err(Violation::EmptyProof)
        } else {
            Ok(
                self.add(
                    user_id,
                    reason,
                    proof,
                    moderator,
                    user_name,
                    user_discriminator,
                    appeal_possible,
                ),
            )
        }
    }

    /// Asks whether a user is banned.
    pub fn check_ban(&self, user_id: u64) -> (r: PreparedRequest)
        ensures
            r@ == check_ban_request(user_id),
    {
        PreparedRequest::get("/bans/check").query(Param::unsigned("user", user_id))
    }

    /// Retrieves the details of a ban.
    pub fn ban_info(&self, user_id: u64) -> (r: PreparedRequest)
        ensures
            r@ == ban_info_request(user_id),
    {
        PreparedRequest::get("/bans/info").query(Param::unsigned("user", user_id))
    }

    /// Forces the deletion of a ban.
    pub fn delete_forcing(&self, user_id: u64) -> (r: PreparedRequest)
        ensures
            r@ == delete_request(user_id, true),
    {
        PreparedRequest::delete("/bans/delete").query(Param::unsigned("user", user_id)).query(
            Param::flag("force", true),
        )
    }

    /// Deletes a ban.
    pub fn delete(&self, user_id: u64) -> (r: PreparedRequest)
        ensures
            r@ == delete_request(user_id, false),
    {
        PreparedRequest::delete("/bans/delete").query(Param::unsigned("user", user_id))
    }
}

} // verus!
