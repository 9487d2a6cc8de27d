use vstd::prelude::*;

verus! {

/// A stored user. Ids are 128-bit UUID values; times are microseconds since
/// the Unix epoch, UTC.
#[derive(Clone, Debug)]
pub struct User {
    pub id: u128,
    pub username: String,
    pub email: String,
    pub password: String,
    pub bio: Option<String>,
    pub image: Option<String>,
    pub created_at: i64,
    pub updated_at: i64,
}

/// A stored post, written by the user `author_id`; times as for `User`.
#[derive(Clone, Debug)]
pub struct Post {
    pub id: u128,
    pub author_id: u128,
    pub slug: String,
    pub title: String,
    pub description: String,
    pub body: String,
    pub created_at: i64,
    pub updated_at: i64,
}

/// The input of a user creation.
#[derive(Clone, Debug)]
pub struct CreateUser {
    pub username: String,
    pub email: String,
    pub password: String,
    pub bio: Option<String>,
    pub image: Option<String>,
}

/// The input of a post creation; a missing slug is generated.
#[derive(Clone, Debug)]
pub struct CreatePost {
    pub author_id: u128,
    pub slug: Option<String>,
    pub title: String,
    pub description: String,
    pub body: String,
}

fn copy_opt(s: &Option<String>) -> (r: Option<String>)
    ensures
        r == *s,
{
    match s {
        Some(v) => Some(v.clone()),
        None => None,
    }
}

impl Post {
    /// A copy equal to this post in every field.
    pub fn duplicate(&self) -> (r: Post)
        ensures
            r == *self,
    {
        Post {
            id: self.id,
            author_id: self.author_id,
            slug: self.slug.clone(),
            title: self.title.clone(),
            description: self.description.clone(),
            body: self.body.clone(),
            created_at: self.created_at,
            updated_at: self.updated_at,
        }
    }
}

impl User {
    pub fn id(&self) -> (r: u128)
        ensures
            r == self.id,
    {
        self.id
    }

    pub fn username(&self) -> (r: &str)
        ensures
            r@ == self.username@,
    {
        self.username.as_str()
    }

    pub fn email(&self) -> (r: &str)
        ensures
            r@ == self.email@,
    {
        self.email.as_str()
    }

    pub fn bio(&self) -> (r: Option<&str>)
        ensures
            r is Some <==> self.bio is Some,
            r is Some ==> r->Some_0@ == self.bio->Some_0@,
    {
        match &self.bio {
            Some(b) => Some(b.as_str()),
            None => None,
        }
    }

    pub fn image(&self) -> (r: Option<&str>)
        ensures
            r is Some <==> self.image is Some,
            r is Some ==> r->Some_0@ == self.image->Some_0@,
    {
        match &self.image {
            Some(b) => Some(b.as_str()),
            None => None,
        }
    }

    pub fn created_at(&self) -> (r: i64)
        ensures
            r == self.created_at,
    {
        self.created_at
    }

    pub fn updated_at(&self) -> (r: i64)
        ensures
            r == self.updated_at,
    {
        self.updated_at
    }

    /// A copy equal to this user in every field.
    pub fn duplicate(&self) -> (r: User)
        ensures
            r == *self,
    {
        User {
            id: self.id,
            username: self.username.clone(),
            email: self.email.clone(),
            password: self.password.clone(),
            bio: copy_opt(&self.bio),
            image: copy_opt(&self.image),
            created_at: self.created_at,
            updated_at: self.updated_at,
        }
    }
}

} // verus!
