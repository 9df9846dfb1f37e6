use crate::v1::error::BuilderError;
use vstd::prelude::*;
use vstd::string::StringExecFns;

verus! {

/// What a user may do within a project.
#[derive(Debug, Clone, Copy, PartialEq, Eq, Structural)]
pub enum ProjectUserRole {
    Owner,
    Member,
}

impl ProjectUserRole {
    /// The name by which the provider knows this role.
    pub open spec fn name(self) -> Seq<char> {
        match self {
            ProjectUserRole::Owner => "owner"@,
            ProjectUserRole::Member => "member"@,
        }
    }

    /// The role that goes by `name`, if there is one.
    pub open spec fn named(name: Seq<char>) -> Option<ProjectUserRole> {
        if exists|role: ProjectUserRole| role.name() == name {
            Some(choose|role: ProjectUserRole| role.name() == name)
        } else {
            None
        }
    }

    /// The name by which the provider knows this role.
    pub fn as_str(&self) -> (name: &'static str)
        ensures
            name@ == self.name(),
    {
        match self {
            ProjectUserRole::Owner => "owner",
            ProjectUserRole::Member => "member",
        }
    }

    /// Reads a role from the name the provider uses for it; `None` for
    /// any other text.
    pub fn from_name(name: &str) -> (role: Option<ProjectUserRole>)
        ensures
            role == Self::named(name@),
    {
        let text = String::from_str(name);
        let role = if text == String::from_str("owner") {
            Some(ProjectUserRole::Owner)
        } else if text == String::from_str("member") {
            Some(ProjectUserRole::Member)
        } else {
            None
        };
        proof {
            if let Some(found) = role {
                assert(found.name() == name@);
                Self::lemma_named(name@);
            }
        }
        role
    }

    /// No two roles share a name.
    pub proof fn lemma_names_differ(self, other: ProjectUserRole)
        ensures
            self.name() == other.name() <==> self == other,
    {
        reveal_strlit("owner");
        reveal_strlit("member");
        if self.name() == other.name() {
            assert(self.name().len() == other.name().len());
            assert(self.name()[0] == other.name()[0]);
        }
    }

    /// Reading back the name of a role gives that role, and a text that
    /// reads as a role is the name of that role.
    pub proof fn lemma_name_round_trip(self, name: Seq<char>)
        ensures
            Self::named(self.name()) == Some(self),
            Self::named(name) == Some(self) <==> name == self.name(),
    {
        Self::lemma_named(name);
        Self::lemma_named(self.name());
    }

    /// `named` picks the one role whose name is the given text.
    proof fn lemma_named(name: Seq<char>)
        ensures
            forall|role: ProjectUserRole| #[trigger]
                role.name() == name ==> Self::named(name) == Some(role),
            Self::named(name) matches Some(role) ==> role.name() == name,
    {
        assert forall|role: ProjectUserRole| #[trigger] role.name() == name implies Self::named(
            name,
        ) == Some(role) by {
            let chosen = choose|role: ProjectUserRole| role.name() == name;
            chosen.lemma_names_differ(role);
        }
    }
}

/// What it takes to add a user to a project.
#[derive(Debug, Clone, PartialEq)]
pub struct CreateProjectUserParameters {
    /// The ID of the user.
    pub user_id: String,
    /// The role that the user gets in the project.
    pub role: ProjectUserRole,
}

/// What a [`CreateProjectUserParameters`] holds.
pub struct CreateProjectUserParametersView {
    pub user_id: Seq<char>,
    pub role: ProjectUserRole,
}

impl View for CreateProjectUserParameters {
    type V = CreateProjectUserParametersView;

    open spec fn view(&self) -> CreateProjectUserParametersView {
        CreateProjectUserParametersView {
            user_id: self.user_id@,
            role: self.role,
        }
    }
}

/// Collects the fields of a [`CreateProjectUserParameters`] one by one. The
/// user_id and the role are required.
#[derive(Debug, Clone)]
pub struct CreateProjectUserParametersBuilder {
    user_id: Option<String>,
    role: Option<ProjectUserRole>,
}

/// What a [`CreateProjectUserParametersBuilder`] has collected so far: for each
/// field the value it was last given, or `None` if it was never set.
pub struct CreateProjectUserParametersBuilderView {
    pub user_id: Option<Seq<char>>,
    pub role: Option<ProjectUserRole>,
}

impl CreateProjectUserParametersBuilderView {
    /// The builder to which nothing has been given.
    pub open spec fn empty() -> CreateProjectUserParametersBuilderView {
        CreateProjectUserParametersBuilderView {
            user_id: None,
            role: None,
        }
    }

    /// The name of the first required field that is still unset, if any.
    pub open spec fn missing(self) -> Option<Seq<char>> {
        if self.user_id is None {
            Some("user_id"@)
        } else if self.role is None {
            Some("role"@)
        } else {
            None
        }
    }

    /// The parameters that these fields make up once nothing is missing.
    pub open spec fn built(self) -> CreateProjectUserParametersView
        recommends
            self.missing() is None,
    {
        CreateProjectUserParametersView {
            user_id: self.user_id->0,
            role: self.role->0,
        }
    }
}

impl View for CreateProjectUserParametersBuilder {
    type V = CreateProjectUserParametersBuilderView;

    closed spec fn view(&self) -> CreateProjectUserParametersBuilderView {
        CreateProjectUserParametersBuilderView {
            user_id: match self.user_id {
                Some(user_id) => Some(user_id@),
                None => None,
            },
            role: self.role,
        }
    }
}

impl Default for CreateProjectUserParametersBuilder {
    fn default() -> (builder: CreateProjectUserParametersBuilder)
        ensures
            builder@ == CreateProjectUserParametersBuilderView::empty(),
    {
        CreateProjectUserParametersBuilder {
            user_id: None,
            role: None,
        }
    }
}

impl CreateProjectUserParametersBuilder {
    /// The ID of the user.
    pub fn user_id(&mut self, value: &str) -> (builder: &mut CreateProjectUserParametersBuilder)
        ensures
            *final(self) == *final(builder),
            builder@ == (CreateProjectUserParametersBuilderView {
                user_id: Some(value@),
                ..old(self)@
            }),
    {
        self.user_id = Some(String::from_str(value));
        self
    }

    /// The role that the user gets in the project.
    pub fn role(&mut self, value: ProjectUserRole) -> (builder: &mut CreateProjectUserParametersBuilder)
        ensures
            *final(self) == *final(builder),
            builder@ == (CreateProjectUserParametersBuilderView {
                role: Some(value),
                ..old(self)@
            }),
    {
        self.role = Some(value);
        self
    }

    /// The parameters collected so far, or the name of the first required field
    /// that was never set.
    pub fn build(&self) -> (result: Result<CreateProjectUserParameters, BuilderError>)
        ensures
            match self@.missing() {
                Some(field) => result matches Err(BuilderError::UninitializedField(name))
                    && name@ == field,
                None => result matches Ok(parameters) && parameters@ == self@.built(),
            },
    {
        let user_id = match &self.user_id {
            Some(user_id) => user_id.clone(),
            None => return Err(BuilderError::UninitializedField("user_id")),
        };
        let role = match self.role {
            Some(role) => role,
            None => return Err(BuilderError::UninitializedField("role")),
        };
        Ok(
            CreateProjectUserParameters {
                user_id,
                role,
            },
        )
    }
}

/// What it takes to change a user's role in a project.
#[derive(Debug, Clone, PartialEq)]
pub struct ModifyProjectUserParameters {
    /// The role that the user is to have in the project.
    pub role: ProjectUserRole,
}

/// What a [`ModifyProjectUserParameters`] holds.
pub struct ModifyProjectUserParametersView {
    pub role: ProjectUserRole,
}

impl View for ModifyProjectUserParameters {
    type V = ModifyProjectUserParametersView;

    open spec fn view(&self) -> ModifyProjectUserParametersView {
        ModifyProjectUserParametersView {
            role: self.role,
        }
    }
}

/// Collects the fields of a [`ModifyProjectUserParameters`] one by one. The
/// role is required.
#[derive(Debug, Clone)]
pub struct ModifyProjectUserParametersBuilder {
    role: Option<ProjectUserRole>,
}

/// What a [`ModifyProjectUserParametersBuilder`] has collected so far: for each
/// field the value it was last given, or `None` if it was never set.
pub struct ModifyProjectUserParametersBuilderView {
    pub role: Option<ProjectUserRole>,
}

impl ModifyProjectUserParametersBuilderView {
    /// The builder to which nothing has been given.
    pub open spec fn empty() -> ModifyProjectUserParametersBuilderView {
        ModifyProjectUserParametersBuilderView {
            role: None,
        }
    }

    /// The name of the first required field that is still unset, if any.
    pub open spec fn missing(self) -> Option<Seq<char>> {
        if self.role is None {
            Some("role"@)
        } else {
            None
        }
    }

    /// The parameters that these fields make up once nothing is missing.
    pub open spec fn built(self) -> ModifyProjectUserParametersView
        recommends
            self.missing() is None,
    {
        ModifyProjectUserParametersView {
            role: self.role->0,
        }
    }
}

impl View for ModifyProjectUserParametersBuilder {
    type V = ModifyProjectUserParametersBuilderView;

    closed spec fn view(&self) -> ModifyProjectUserParametersBuilderView {
        ModifyProjectUserParametersBuilderView {
            role: self.role,
        }
    }
}

impl Default for ModifyProjectUserParametersBuilder {
    fn default() -> (builder: ModifyProjectUserParametersBuilder)
        ensures
            builder@ == ModifyProjectUserParametersBuilderView::empty(),
    {
        ModifyProjectUserParametersBuilder {
            role: None,
        }
    }
}

impl ModifyProjectUserParametersBuilder {
    /// The role that the user is to have in the project.
    pub fn role(&mut self, value: ProjectUserRole) -> (builder: &mut ModifyProjectUserParametersBuilder)
        ensures
            *final(self) == *final(builder),
            builder@ == (ModifyProjectUserParametersBuilderView {
                role: Some(value),
                ..old(self)@
            }),
    {
        self.role = Some(value);
        self
    }

    /// The parameters collected so far, or the name of the first required field
    /// that was never set.
    pub fn build(&self) -> (result: Result<ModifyProjectUserParameters, BuilderError>)
        ensures
            match self@.missing() {
                Some(field) => result matches Err(BuilderError::UninitializedField(name))
                    && name@ == field,
                None => result matches Ok(parameters) && parameters@ == self@.built(),
            },
    {
        let role = match self.role {
            Some(role) => role,
            None => return Err(BuilderError::UninitializedField("role")),
        };
        Ok(
            ModifyProjectUserParameters {
                role,
            },
        )
    }
}

} // verus!
