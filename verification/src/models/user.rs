//! The user.

use vstd::prelude::*;
use crate::models::{current_time, Timestamp};
use crate::traits::model_traits::{collection_for, ModelTraits};
use crate::validation::{
    check_email, check_required, check_text_length, email_rule, field_entry, length_rule,
    required_rule, text_value, validate_email, well_formed_email, ValidationError,
    ValidationErrorView, ValidationErrors, ValidationErrorsView,
};

verus! {

/// What a user may do.
#[derive(Clone, Copy, Debug, PartialEq, Eq, Structural)]
pub enum UserRole {
    SuperAdmin,
    Admin,
    User,
}

impl Default for UserRole {
    fn default() -> (role: UserRole)
        ensures
            role == UserRole::User,
    {
        UserRole::User
    }
}

impl UserRole {
    /// The name under which the role is stored.
    pub open spec fn stored_name(self) -> Seq<char> {
        match self {
            UserRole::SuperAdmin => "super_admin"@,
            UserRole::Admin => "admin"@,
            UserRole::User => "user"@,
        }
    }

    /// The name under which the role is stored.
    pub fn name(self) -> (name: &'static str)
        ensures
            name@ == self.stored_name(),
    {
        match self {
            UserRole::SuperAdmin => "super_admin",
            UserRole::Admin => "admin",
            UserRole::User => "user",
        }
    }
}

/// A user. Name and address are the user's own among all users; the
/// password is a hash by the time it is stored.
#[derive(Clone, Debug, PartialEq, Eq)]
pub struct User {
    pub username: Option<String>,
    pub email: Option<String>,
    pub password: Option<String>,
    pub role: Option<UserRole>,
    pub profile_image: Option<String>,
    pub created_at: Option<Timestamp>,
    pub updated_at: Option<Timestamp>,
}

/// The fields of a user whose values no two users share.
#[derive(Clone, Copy, Debug, PartialEq, Eq)]
pub struct UniqueUserFields {
    pub email: bool,
    pub username: bool,
}

impl Default for UniqueUserFields {
    fn default() -> (fields: UniqueUserFields)
        ensures
            fields == (UniqueUserFields { email: false, username: false }),
    {
        UniqueUserFields { email: false, username: false }
    }
}

impl UniqueUserFields {
    /// The names of the fields, in the order of their declaration.
    pub open spec fn names() -> Seq<Seq<char>> {
        seq!["email"@, "username"@]
    }

    /// The names of the fields, in the order of their declaration.
    pub fn field_names(&self) -> (names: Vec<String>)
        ensures
            names.deep_view() == Self::names(),
    {
        let mut names: Vec<String> = Vec::new();
        names.push("email".to_owned());
        names.push("username".to_owned());
        assert(names.deep_view() =~= Self::names());
        names
    }
}

impl User {
    /// The rules that the user name breaks: it is required, and has from 3
    /// to 25 characters.
    pub open spec fn username_violations(&self) -> Seq<ValidationErrorView> {
        required_rule(self.username is Some, None) + length_rule(
            text_value(self.username.deep_view()),
            Some(3),
            None,
            Some("Username cannot be less than 3 characters"@),
        ) + length_rule(
            text_value(self.username.deep_view()),
            None,
            Some(25),
            Some("Username cannot be more than 25 characters"@),
        )
    }

    /// The rules that the e-mail address breaks, given whether it is well
    /// formed: it is required, and is a well-formed address.
    pub open spec fn email_violations(&self, email_well_formed: bool) -> Seq<ValidationErrorView> {
        required_rule(self.email is Some, None) + email_rule(
            self.email.deep_view(),
            email_well_formed,
            Some("Enter a valid email address."@),
        )
    }

    /// The rules that this user breaks, given whether the e-mail address is
    /// well formed.
    pub open spec fn violations_given(&self, email_well_formed: bool) -> ValidationErrorsView {
        field_entry("username"@, self.username_violations()) + field_entry(
            "email"@,
            self.email_violations(email_well_formed),
        ) + field_entry(
            "password"@,
            required_rule(self.password is Some, Some("Password is required"@)),
        ) + field_entry("role"@, required_rule(self.role is Some, Some("Role is required"@)))
            + field_entry("created_at"@, required_rule(self.created_at is Some, None))
            + field_entry("updated_at"@, required_rule(self.updated_at is Some, None))
    }

    /// Whether the e-mail address, where there is one, is well formed.
    pub open spec fn email_well_formed(&self) -> bool {
        match self.email {
            Some(address) => well_formed_email(address@),
            None => true,
        }
    }

    /// The user as it is before anything is known of it but the times of
    /// its creation and of its last change: no name, no address, no
    /// password, no image, and the role of a plain user.
    pub fn new_at(created_at: Timestamp, updated_at: Timestamp) -> (user: User)
        ensures
            user.username is None,
            user.email is None,
            user.password is None,
            user.role == Some(UserRole::User),
            user.profile_image is None,
            user.created_at == Some(created_at),
            user.updated_at == Some(updated_at),
    {
        User {
            username: None,
            email: None,
            password: None,
            role: Some(UserRole::User),
            profile_image: None,
            created_at: Some(created_at),
            updated_at: Some(updated_at),
        }
    }

    /// Holds the user to its rules, given whether the e-mail address is
    /// well formed.
    pub fn validate_given(&self, email_well_formed: bool) -> (r: Result<(), ValidationErrors>)
        ensures
            crate::validation::outcome_view(r) == crate::validation::outcome(
                self.violations_given(email_well_formed),
            ),
    {
        let mut errors = ValidationErrors::new();

        let mut username: Vec<ValidationError> = Vec::new();
        assert(username.deep_view() =~= Seq::empty());
        check_required(self.username.is_some(), None, &mut username);
        check_text_length(
            &self.username,
            Some(3),
            None,
            Some("Username cannot be less than 3 characters"),
            &mut username,
        );
        check_text_length(
            &self.username,
            None,
            Some(25),
            Some("Username cannot be more than 25 characters"),
            &mut username,
        );
        assert(username.deep_view() =~= self.username_violations());
        errors.add_field("username", username);

        let mut email: Vec<ValidationError> = Vec::new();
        assert(email.deep_view() =~= Seq::empty());
        check_required(self.email.is_some(), None, &mut email);
        check_email(
            &self.email,
            email_well_formed,
            Some("Enter a valid email address."),
            &mut email,
        );
        assert(email.deep_view() =~= self.email_violations(email_well_formed));
        errors.add_field("email", email);

        let mut password: Vec<ValidationError> = Vec::new();
        assert(password.deep_view() =~= Seq::empty());
        check_required(self.password.is_some(), Some("Password is required"), &mut password);
        assert(password.deep_view() =~= required_rule(
            self.password is Some,
            Some("Password is required"@),
        ));
        errors.add_field("password", password);

        let mut role: Vec<ValidationError> = Vec::new();
        assert(role.deep_view() =~= Seq::empty());
        check_required(self.role.is_some(), Some("Role is required"), &mut role);
        assert(role.deep_view() =~= required_rule(self.role is Some, Some("Role is required"@)));
        errors.add_field("role", role);

        let mut created_at: Vec<ValidationError> = Vec::new();
        assert(created_at.deep_view() =~= Seq::empty());
        check_required(self.created_at.is_some(), None, &mut created_at);
        assert(created_at.deep_view() =~= required_rule(self.created_at is Some, None));
        errors.add_field("created_at", created_at);

        let mut updated_at: Vec<ValidationError> = Vec::new();
        assert(updated_at.deep_view() =~= Seq::empty());
        check_required(self.updated_at.is_some(), None, &mut updated_at);
        assert(updated_at.deep_view() =~= required_rule(self.updated_at is Some, None));
        errors.add_field("updated_at", updated_at);

        assert(errors.deep_view() =~= self.violations_given(email_well_formed));
        errors.into_result()
    }
}

impl ModelTraits for User {
    open spec fn struct_name() -> Seq<char> {
        "User"@
    }

    open spec fn unique_field_names() -> Seq<Seq<char>> {
        UniqueUserFields::names()
    }

    open spec fn violations(&self) -> ValidationErrorsView {
        self.violations_given(self.email_well_formed())
    }

    fn get_struct_name_as_plural_string() -> (name: String) {
        collection_for("User")
    }

    fn unique_fields() -> (fields: Vec<String>) {
        let unique = UniqueUserFields { email: true, username: true };
        unique.field_names()
    }

    fn validate(&self) -> (r: Result<(), ValidationErrors>) {
        let email_well_formed = match &self.email {
            Some(address) => validate_email(address.as_str()),
            None => true,
        };
        self.validate_given(email_well_formed)
    }
}

impl Default for User {
    /// The user as it is before anything is known of it, created and last
    /// changed now.
    fn default() -> (user: User)
        ensures
            user.username is None,
            user.email is None,
            user.password is None,
            user.role == Some(UserRole::User),
            user.profile_image is None,
            user.created_at is Some,
            user.updated_at is Some,
    {
        let created_at = current_time();
        let updated_at = current_time();
        User::new_at(created_at, updated_at)
    }
}

} // verus!
