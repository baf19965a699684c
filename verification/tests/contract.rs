use std::cell::RefCell;
use std::collections::HashMap;
use storage_noodle::codegen::attr::SQL_ATTR;
use storage_noodle::codegen::crud::{
    create_impl, delete_impl, read_impl, update_impl, Bind, Capability, CrudImpl,
};
use storage_noodle::codegen::shape::{Attribute, Field, Generics, ItemStruct, TypeExpr};
use storage_noodle::contract::{
    absent_if_none_written, settle_create, settle_fetch, settle_write, BackingStorage, Create,
    Delete, Fault, Read, Update,
};
use storage_noodle::id::AssocId;
use storage_noodle::sql::{classify, created, deleted, fetched, updated, SqlBacking};

type RawId = u32;

/// A database in memory: tables of rows of text, a row being its values in
/// column order. It runs the plans of the generator, and like a database it
/// fails with `RowNotFound` where a statement that returns a row finds none.
#[derive(Default)]
struct Database {
    tables: HashMap<String, HashMap<RawId, Vec<String>>>,
    next: RawId,
    queries: Vec<String>,
}

impl Database {
    fn run(
        &mut self,
        plan: &CrudImpl,
        values: &HashMap<String, String>,
        id: Option<RawId>,
    ) -> Result<(RawId, Vec<String>), sqlx::Error> {
        self.queries.push(plan.query.clone());
        let mut bound = Vec::new();
        let mut bound_id = None;
        for bind in &plan.binds {
            match bind {
                Bind::Field(field) => bound.push(values[field].clone()),
                Bind::Id => bound_id = id,
            }
        }
        let table = self.tables.entry(plan.ident.clone()).or_default();
        match plan.capability {
            Capability::Create => {
                self.next += 1;
                table.insert(self.next, bound.clone());
                Ok((self.next, bound))
            }
            Capability::Read => {
                let id = bound_id.unwrap();
                table.get(&id).cloned().map(|row| (id, row)).ok_or(sqlx::Error::RowNotFound)
            }
            Capability::Update => {
                let id = bound_id.unwrap();
                match table.get_mut(&id) {
                    Some(row) => {
                        *row = bound.clone();
                        Ok((id, bound))
                    }
                    None => Err(sqlx::Error::RowNotFound),
                }
            }
            Capability::Delete => {
                let id = bound_id.unwrap();
                table.remove(&id).map(|row| (id, row)).ok_or(sqlx::Error::RowNotFound)
            }
        }
    }
}

type Backing = SqlBacking<RefCell<Database>, RawId>;

fn ty(name: &str) -> TypeExpr {
    TypeExpr::ident(name.to_string())
}

fn declaration(ident: &str, fields: &[&str]) -> ItemStruct {
    ItemStruct {
        attrs: vec![Attribute {
            name: Some(SQL_ATTR.to_string()),
            types: Ok(vec![ty("Sqlite"), ty("u32")]),
            ident: Err("expected one name".to_string()),
        }],
        ident: ident.to_string(),
        generics: Generics { params: vec![], where_clause: None },
        fields: fields
            .iter()
            .map(|field| Field { ident: Some(field.to_string()), ty: ty("String") })
            .collect(),
    }
}

#[derive(Debug, PartialEq)]
struct Recipe {
    ingredients: String,
}

#[derive(Debug, PartialEq)]
struct Cookie {
    flavour: String,
    recipe: AssocId<Recipe, RawId>,
}

impl Recipe {
    fn declaration() -> ItemStruct {
        declaration("Recipe", &["ingredients"])
    }

    fn values(&self) -> HashMap<String, String> {
        HashMap::from([("ingredients".to_string(), self.ingredients.clone())])
    }

    fn from_row(row: Vec<String>) -> Recipe {
        Recipe { ingredients: row[0].clone() }
    }
}

impl Cookie {
    fn declaration() -> ItemStruct {
        declaration("Cookie", &["flavour", "recipe"])
    }

    fn values(&self) -> HashMap<String, String> {
        HashMap::from([
            ("flavour".to_string(), self.flavour.clone()),
            ("recipe".to_string(), self.recipe.as_raw().to_string()),
        ])
    }

    fn from_row(row: Vec<String>) -> Cookie {
        Cookie { flavour: row[0].clone(), recipe: AssocId::new(row[1].parse().unwrap()) }
    }
}

impl Create<Backing> for Recipe {
    type Error = sqlx::Error;

    fn create(&self, storage: &Backing) -> Result<AssocId<Self, RawId>, sqlx::Error> {
        let plan = create_impl(&Recipe::declaration(), &ty("Sqlite"), &ty("u32")).unwrap();
        let reply = storage.pool.borrow_mut().run(&plan, &self.values(), None);
        created(reply.map(|(id, _)| id))
    }
}

impl Read<Backing> for Recipe {
    type Error = sqlx::Error;

    fn read(storage: &Backing, id: &AssocId<Self, RawId>) -> Result<Option<Self>, sqlx::Error> {
        let plan = read_impl(&Recipe::declaration(), &ty("Sqlite"), &ty("u32")).unwrap();
        let reply = storage.pool.borrow_mut().run(&plan, &HashMap::new(), Some(*id.as_raw()));
        fetched(reply.map(|(_, row)| Recipe::from_row(row)))
    }
}

impl Create<Backing> for Cookie {
    type Error = sqlx::Error;

    fn create(&self, storage: &Backing) -> Result<AssocId<Self, RawId>, sqlx::Error> {
        let plan = create_impl(&Cookie::declaration(), &ty("Sqlite"), &ty("u32")).unwrap();
        let reply = storage.pool.borrow_mut().run(&plan, &self.values(), None);
        created(reply.map(|(id, _)| id))
    }
}

impl Read<Backing> for Cookie {
    type Error = sqlx::Error;

    fn read(storage: &Backing, id: &AssocId<Self, RawId>) -> Result<Option<Self>, sqlx::Error> {
        let plan = read_impl(&Cookie::declaration(), &ty("Sqlite"), &ty("u32")).unwrap();
        let reply = storage.pool.borrow_mut().run(&plan, &HashMap::new(), Some(*id.as_raw()));
        fetched(reply.map(|(_, row)| Cookie::from_row(row)))
    }
}

impl Update<Backing> for Cookie {
    type Error = sqlx::Error;

    fn update(
        &self,
        storage: &Backing,
        id: &AssocId<Self, RawId>,
    ) -> Result<Option<()>, sqlx::Error> {
        let plan = update_impl(&Cookie::declaration(), &ty("Sqlite"), &ty("u32")).unwrap();
        let reply = storage.pool.borrow_mut().run(&plan, &self.values(), Some(*id.as_raw()));
        updated(match reply {
            Ok(_) => Ok(1),
            Err(sqlx::Error::RowNotFound) => Ok(0),
            Err(error) => Err(error),
        })
    }
}

impl Delete<Backing> for Cookie {
    type Error = sqlx::Error;

    fn delete(storage: &Backing, id: &AssocId<Self, RawId>) -> Result<Option<()>, sqlx::Error> {
        let plan = delete_impl(&Cookie::declaration(), &ty("Sqlite"), &ty("u32")).unwrap();
        let reply = storage.pool.borrow_mut().run(&plan, &HashMap::new(), Some(*id.as_raw()));
        deleted(reply.map(|(_, row)| Cookie::from_row(row))).map(|row| row.map(|_| ()))
    }
}

fn backing() -> Backing {
    SqlBacking::new(RefCell::new(Database::default()))
}

fn raw_id_of<S: BackingStorage<RawId = RawId>, T>(_: &S, id: &AssocId<T, RawId>) -> RawId {
    *id.as_raw()
}

#[test]
fn main() {
    let backing = backing();

    let choco_recipe_id = Recipe {
        ingredients: "eggs, flour, sugar, butter, chocolate chips".to_string(),
    }
    .create(&backing)
    .unwrap();

    let cookie = Cookie { flavour: "chocolate".to_string(), recipe: choco_recipe_id };
    let cookie_id = cookie.create(&backing).unwrap();

    let returned_cookie = Cookie::read(&backing, &cookie_id).unwrap();
    assert_eq!(returned_cookie, Some(cookie));

    let strawb_recipe_id = Recipe {
        ingredients: "eggs, flour, sugar, butter, strawberries".to_string(),
    }
    .create(&backing)
    .unwrap();

    let new_cookie = Cookie { flavour: "strawberry".to_string(), recipe: strawb_recipe_id };
    new_cookie.update(&backing, &cookie_id).unwrap().unwrap();

    let returned_cookie = Cookie::read(&backing, &cookie_id).unwrap().unwrap();
    assert_eq!(returned_cookie, new_cookie);

    Cookie::delete(&backing, &cookie_id).unwrap().unwrap();

    let should_be_none = Cookie::read(&backing, &cookie_id).unwrap();
    assert!(should_be_none.is_none());

    assert_eq!(
        backing.pool.borrow().queries,
        vec![
            "INSERT INTO Recipe (ingredients) VALUES (?) RETURNING Id",
            "INSERT INTO Cookie (flavour, recipe) VALUES (?, ?) RETURNING Id",
            "SELECT flavour, recipe FROM Cookie WHERE Id = ?",
            "INSERT INTO Recipe (ingredients) VALUES (?) RETURNING Id",
            "UPDATE Cookie SET flavour=?, recipe=? WHERE Id = ?",
            "SELECT flavour, recipe FROM Cookie WHERE Id = ?",
            "DELETE FROM Cookie WHERE Id = ? RETURNING flavour, recipe",
            "SELECT flavour, recipe FROM Cookie WHERE Id = ?",
        ]
    );
}

#[test]
fn simple_cookie_lifecycle() {
    let backing = backing();
    let recipe = Recipe { ingredients: "eggs".to_string() }.create(&backing).unwrap();
    let raw = *recipe.as_raw();

    let cookie = Cookie { flavour: "chocolate".to_string(), recipe };
    let id = cookie.create(&backing).unwrap();
    assert_eq!(Cookie::read(&backing, &id).unwrap(), Some(cookie));

    let updated = Cookie { flavour: "strawberry".to_string(), recipe: AssocId::new(raw) };
    assert!(matches!(updated.update(&backing, &id), Ok(Some(()))));
    assert_eq!(Cookie::read(&backing, &id).unwrap(), Some(updated));

    assert!(matches!(Cookie::delete(&backing, &id), Ok(Some(()))));
    assert!(matches!(Cookie::read(&backing, &id), Ok(None)));
}

#[test]
fn a_reference_keeps_its_raw_id() {
    let backing = backing();
    let recipe_id = Recipe { ingredients: "eggs, flour".to_string() }.create(&backing).unwrap();
    let raw = raw_id_of(&backing, &recipe_id);

    let cookie_id =
        Cookie { flavour: "plain".to_string(), recipe: recipe_id }.create(&backing).unwrap();
    let back = Cookie::read(&backing, &cookie_id).unwrap().unwrap();

    assert_eq!(*back.recipe.as_raw(), raw);
    assert_eq!(back.recipe, AssocId::new(raw));
    assert_eq!(
        Recipe::read(&backing, &back.recipe).unwrap(),
        Some(Recipe { ingredients: "eggs, flour".to_string() })
    );
}

#[test]
fn absent_rows_are_reported_not_failed_on() {
    let backing = backing();
    let nowhere: AssocId<Cookie, RawId> = AssocId::new(99);
    let anything = Cookie { flavour: "any".to_string(), recipe: AssocId::new(1) };
    assert!(matches!(Cookie::read(&backing, &nowhere), Ok(None)));
    assert!(matches!(anything.update(&backing, &nowhere), Ok(None)));
    assert!(matches!(Cookie::delete(&backing, &nowhere), Ok(None)));
    assert!(backing.pool.borrow().tables["Cookie"].is_empty());
}

#[test]
fn distinct_creates_give_distinct_ids() {
    let backing = backing();
    let first = Recipe { ingredients: "a".to_string() }.create(&backing).unwrap();
    let second = Recipe { ingredients: "a".to_string() }.create(&backing).unwrap();
    assert_ne!(first, second);
    assert_eq!(Recipe::read(&backing, &first).unwrap(), Recipe::read(&backing, &second).unwrap());
}

#[test]
fn ids_are_equal_when_their_raw_ids_are() {
    let a: AssocId<Cookie, u32> = AssocId::new(7);
    let b: AssocId<Cookie, u32> = AssocId::new(7);
    let c: AssocId<Cookie, u32> = AssocId::new(8);
    assert_eq!(a, b);
    assert_ne!(a, c);
    assert_eq!(*a.as_raw(), 7);
    let text: AssocId<str, String> = AssocId::new("key".to_string());
    assert_eq!(text.as_raw(), "key");
    assert_eq!(text, AssocId::new("key".to_string()));
}

#[test]
fn settle_fetch_has_three_outcomes() {
    assert_eq!(settle_fetch(Ok::<u8, Fault<&str>>(3)), Ok(Some(3)));
    assert_eq!(settle_fetch(Err::<u8, Fault<&str>>(Fault::NotFound)), Ok(None));
    assert_eq!(settle_fetch(Err::<u8, Fault<&str>>(Fault::Failed("broken"))), Err("broken"));
}

#[test]
fn settle_write_has_three_outcomes() {
    assert_eq!(settle_write(Ok::<u64, Fault<&str>>(1)), Ok(Some(())));
    assert_eq!(settle_write(Ok::<u64, Fault<&str>>(0)), Ok(Some(())));
    assert_eq!(settle_write(Err::<u64, Fault<&str>>(Fault::NotFound)), Ok(None));
    assert_eq!(settle_write(Err::<u64, Fault<&str>>(Fault::Failed("broken"))), Err("broken"));
}

#[test]
fn a_write_of_no_record_is_a_report_of_absence() {
    assert_eq!(absent_if_none_written(Ok::<u64, Fault<&str>>(0)), Err(Fault::NotFound));
    assert_eq!(absent_if_none_written(Ok::<u64, Fault<&str>>(1)), Ok(1));
    assert_eq!(absent_if_none_written(Ok::<u64, Fault<&str>>(u64::MAX)), Ok(u64::MAX));
    assert_eq!(absent_if_none_written(Err::<u64, Fault<&str>>(Fault::NotFound)), Err(Fault::NotFound));
    assert_eq!(
        absent_if_none_written(Err::<u64, Fault<&str>>(Fault::Failed("broken"))),
        Err(Fault::Failed("broken"))
    );
    assert_eq!(settle_write(absent_if_none_written(Ok::<u64, Fault<&str>>(0))), Ok(None));
}

#[test]
fn settle_create_has_two_outcomes() {
    let made: Result<AssocId<Cookie, u32>, &str> = settle_create(Ok(5));
    assert_eq!(made, Ok(AssocId::new(5)));
    let failed: Result<AssocId<Cookie, u32>, &str> = settle_create(Err("full"));
    assert_eq!(failed, Err("full"));
}

#[test]
fn classify_tells_a_missing_row_from_other_errors() {
    assert!(matches!(classify(Err::<(), _>(sqlx::Error::RowNotFound)), Err(Fault::NotFound)));
    assert!(matches!(
        classify(Err::<(), _>(sqlx::Error::PoolClosed)),
        Err(Fault::Failed(sqlx::Error::PoolClosed))
    ));
    assert!(matches!(
        classify(Err::<(), _>(sqlx::Error::ColumnNotFound("Id".to_string()))),
        Err(Fault::Failed(sqlx::Error::ColumnNotFound(_)))
    ));
    assert!(matches!(classify(Ok::<u8, _>(1)), Ok(1)));
}

#[test]
fn sql_replies_settle() {
    let made: Result<AssocId<Cookie, u32>, sqlx::Error> = created(Ok(4));
    assert_eq!(*made.unwrap().as_raw(), 4);
    let failed: Result<AssocId<Cookie, u32>, sqlx::Error> = created(Err(sqlx::Error::RowNotFound));
    assert!(matches!(failed, Err(sqlx::Error::RowNotFound)));

    assert!(matches!(fetched(Ok::<u8, _>(1)), Ok(Some(1))));
    assert!(matches!(fetched(Err::<u8, _>(sqlx::Error::RowNotFound)), Ok(None)));
    assert!(matches!(fetched(Err::<u8, _>(sqlx::Error::PoolTimedOut)), Err(sqlx::Error::PoolTimedOut)));

    assert!(matches!(updated(Ok(1)), Ok(Some(()))));
    assert!(matches!(updated(Ok(2)), Ok(Some(()))));
    assert!(matches!(updated(Ok(0)), Ok(None)));
    assert!(matches!(updated(Err(sqlx::Error::RowNotFound)), Ok(None)));
    assert!(matches!(updated(Err(sqlx::Error::WorkerCrashed)), Err(sqlx::Error::WorkerCrashed)));

    assert!(matches!(deleted(Ok::<u8, _>(9)), Ok(Some(9))));
    assert!(matches!(deleted(Err::<u8, _>(sqlx::Error::RowNotFound)), Ok(None)));
    assert!(matches!(deleted(Err::<u8, _>(sqlx::Error::PoolClosed)), Err(sqlx::Error::PoolClosed)));
}

#[test]
fn backing_holds_its_pool() {
    let backing: SqlBacking<&str, u64> = SqlBacking::new("pool");
    assert_eq!(backing.pool, "pool");
    assert_eq!(backing.clone().pool, "pool");
}
