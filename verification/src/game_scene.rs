//! The scenes of the game: the prelude shown when a session starts, and the
//! question scenes loaded one after another.
use vstd::prelude::*;

verus! {

/// The four alternatives of a scene's question and the identifier of the right one.
#[derive(Debug)]
pub struct SceneOptions {
    pub a: String,
    pub b: String,
    pub c: String,
    pub d: String,
    pub id_correct: String,
}

/// A question scene.
#[derive(Debug)]
pub struct GameScene {
    pub title: String,
    pub description: String,
    pub options: SceneOptions,
    pub success_msg: String,
    pub error_msg: String,
}

/// What a session currently shows: the prelude text or a question scene.
#[derive(Debug)]
pub enum GameSceneType {
    Prelude(String),
    Normal(GameScene),
}

impl Clone for SceneOptions {
    fn clone(&self) -> (res: Self)
        ensures
            res == *self,
    {
        SceneOptions {
            a: self.a.clone(),
            b: self.b.clone(),
            c: self.c.clone(),
            d: self.d.clone(),
            id_correct: self.id_correct.clone(),
        }
    }
}

impl Clone for GameScene {
    fn clone(&self) -> (res: Self)
        ensures
            res == *self,
    {
        GameScene {
            title: self.title.clone(),
            description: self.description.clone(),
            options: self.options.clone(),
            success_msg: self.success_msg.clone(),
            error_msg: self.error_msg.clone(),
        }
    }
}

impl Clone for GameSceneType {
    fn clone(&self) -> (res: Self)
        ensures
            res == *self,
    {
        match self {
            GameSceneType::Prelude(text) => GameSceneType::Prelude(text.clone()),
            GameSceneType::Normal(scene) => GameSceneType::Normal(scene.clone()),
        }
    }
}

} // verus!
