use enoa_signs::chance::Chance;
use enoa_signs::commands::{hello_world, modify_sign, sign_current, sign_my_power, sign_roll, utils};
use enoa_signs::db::memory::MemoryDao;
use enoa_signs::db::{
    Dao, GuildInfo, SignInfo, SignState, StoreError, StoreModel, Timestamp, UserInfo,
};
use enoa_signs::discord::{conclude, registered_commands, route, Handler, Route};
use enoa_signs::interaction::{
    Button, ComponentKind, HandlerError, Interaction, MessageEdit, MessageRef, Reply, Response,
};
use enoa_signs::signs::{load_signs, render, SignCatalog, SignData};
use std::sync::Arc;

fn data(id: &str, difficulty: i32) -> SignData {
    SignData {
        id: id.to_string(),
        name: "Буря".to_string(),
        difficulty,
        description: "Небо темнеет".to_string(),
        effect: "Все прячутся".to_string(),
        success_effect: "Буря уходит".to_string(),
        failure_effect: "Буря крепнет".to_string(),
    }
}

fn catalog() -> SignCatalog {
    load_signs(vec![data("1234", 12), data("1111", 30)])
}

fn today() -> Timestamp {
    Timestamp { seconds: 1_700_000_000, day: 738_838 }
}

fn tomorrow() -> Timestamp {
    Timestamp { seconds: 1_700_086_400, day: 738_839 }
}

fn chance(faces: [i32; 4], roll: i32, coin: bool) -> Chance {
    Chance { faces, roll, coin }
}

fn command(name: &str, user_id: u64, guild_id: Option<u64>) -> Interaction {
    Interaction::Command { name: name.to_string(), user_id, guild_id }
}

fn press(user_id: u64, guild_id: Option<u64>) -> Interaction {
    Interaction::Component {
        custom_id: "change_sign".to_string(),
        kind: ComponentKind::Button,
        user_id,
        guild_id,
        message: place(),
        message_content: "the sign".to_string(),
    }
}

fn place() -> MessageRef {
    MessageRef { channel_id: 5, message_id: 20 }
}

fn error(text: &str) -> Reply {
    Reply {
        response: Some(Response::Message {
            content: format!("**Ошибка:**\n{}", text),
            ephemeral: true,
            button: None,
        }),
        edit: None,
    }
}

fn control(disabled: bool) -> Button {
    Button {
        custom_id: "change_sign".to_string(),
        label: "Повлиять на знамение".to_string(),
        style: 1,
        disabled,
    }
}

/// A store that answers nothing.
struct Down;

impl Dao for Down {
    fn model(&self) -> StoreModel {
        unreachable!()
    }

    fn reliable(&self) -> bool {
        false
    }

    fn save_user_info(&mut self, _user_info: UserInfo) -> Result<(), StoreError> {
        Err(StoreError::Unavailable)
    }

    fn get_user_info(&self, _user_id: u64, _guild_id: u64) -> Result<Option<UserInfo>, StoreError> {
        Err(StoreError::Unavailable)
    }

    fn create_sign(
        &mut self,
        _guild_id: u64,
        _sign_id: String,
        _sign_created_by: u64,
        _now: Timestamp,
    ) -> Result<Option<GuildInfo>, StoreError> {
        Err(StoreError::Unavailable)
    }

    fn get_guild_info(&self, _guild_id: u64, _now: Timestamp) -> Result<Option<GuildInfo>, StoreError> {
        Err(StoreError::CorruptRecord)
    }

    fn change_sign_state(
        &mut self,
        _guild_id: u64,
        _new_state: SignState,
        _now: Timestamp,
    ) -> Result<Result<GuildInfo, Option<GuildInfo>>, StoreError> {
        Err(StoreError::Unavailable)
    }
}

/// A store at which someone else was quicker: it shows guild 42 an open
/// sign made by user 7, and answers every resolution with a conflict.
struct Raced {
    conflict: Option<GuildInfo>,
}

fn sign_of(created_by: u64, state: SignState) -> GuildInfo {
    GuildInfo {
        guild_id: 42,
        current_sign: SignInfo {
            id: "1234".to_string(),
            created_by_user_id: created_by,
            state,
            created_at: today(),
        },
    }
}

impl Dao for Raced {
    fn model(&self) -> StoreModel {
        unreachable!()
    }

    fn reliable(&self) -> bool {
        false
    }

    fn save_user_info(&mut self, _user_info: UserInfo) -> Result<(), StoreError> {
        Ok(())
    }

    fn get_user_info(&self, _user_id: u64, _guild_id: u64) -> Result<Option<UserInfo>, StoreError> {
        Ok(None)
    }

    fn create_sign(
        &mut self,
        _guild_id: u64,
        _sign_id: String,
        _sign_created_by: u64,
        _now: Timestamp,
    ) -> Result<Option<GuildInfo>, StoreError> {
        Ok(None)
    }

    fn get_guild_info(&self, _guild_id: u64, _now: Timestamp) -> Result<Option<GuildInfo>, StoreError> {
        Ok(Some(sign_of(7, SignState::Created)))
    }

    fn change_sign_state(
        &mut self,
        _guild_id: u64,
        _new_state: SignState,
        _now: Timestamp,
    ) -> Result<Result<GuildInfo, Option<GuildInfo>>, StoreError> {
        Ok(Err(self.conflict.clone()))
    }
}

#[test]
fn the_loser_of_a_race_is_told_why() {
    let cases = [
        (Some(sign_of(7, SignState::Success { by_user_id: 11 })), "Кто-то уже повлиял на знамение сегодня"),
        (Some(sign_of(7, SignState::Failed { by_user_id: 11 })), "Кто-то уже повлиял на знамение сегодня"),
        (None, "Сегодня еще не было знамения. Ты можешь его создать!"),
        (
            Some(sign_of(9, SignState::Created)),
            "Повлиять на знамение может только тот, кто его не создавал",
        ),
        (Some(sign_of(7, SignState::Created)), "Ты не можешь повлиять на знамение сейчас"),
    ];
    for (conflict, text) in cases {
        assert_eq!(error(text), modify_sign::conflict_reply(&conflict, 9));
        let mut dao = Raced { conflict: conflict.clone() };
        assert_eq!(
            Ok(error(text)),
            modify_sign::run(&mut dao, &catalog(), 9, Some(42), place(), "m", 10, true, today())
        );
        let mut handler = Handler::new(Raced { conflict }, Arc::new(catalog()));
        assert_eq!(
            error(text),
            handler.handle_with(&press(9, Some(42)), &chance([1, 1, 1, 1], 10, true), today())
        );
    }
}

#[test]
fn events_go_to_their_handlers() {
    assert_eq!(Route::Pong, route(&Interaction::Ping));
    assert_eq!(Route::SignRoll, route(&command("sign_roll", 1, None)));
    assert_eq!(Route::SignCurrent, route(&command("sign_current", 1, Some(2))));
    assert_eq!(Route::SignMyPower, route(&command("sign_my_power", 1, Some(2))));
    assert_eq!(Route::ChangeSign, route(&press(1, Some(2))));
    assert_eq!(Route::NotFound, route(&command("hello", 1, Some(2))));
    assert_eq!(Route::NotFound, route(&command("change_sign", 1, Some(2))));
    assert_eq!(Route::NotFound, route(&command("", 1, Some(2))));
    assert_eq!(Route::NotFound, route(&Interaction::Other));
    assert_eq!(
        Route::NotFound,
        route(&Interaction::Component {
            custom_id: "change_sign".to_string(),
            kind: ComponentKind::Other,
            user_id: 1,
            guild_id: Some(2),
            message: place(),
            message_content: String::new(),
        })
    );
    assert_eq!(
        Route::NotFound,
        route(&Interaction::Component {
            custom_id: "sign_roll".to_string(),
            kind: ComponentKind::Button,
            user_id: 1,
            guild_id: Some(2),
            message: place(),
            message_content: String::new(),
        })
    );
}

#[test]
fn a_ping_is_answered_with_a_pong() {
    let mut handler = Handler::new(MemoryDao::new(), Arc::new(catalog()));
    let reply = handler.handle_with(&Interaction::Ping, &chance([1, 1, 1, 1], 1, false), today());
    assert_eq!(Reply { response: Some(Response::Pong), edit: None }, reply);
    let reply = handler.handle_interaction(&Interaction::Ping, today());
    assert_eq!(Reply { response: Some(Response::Pong), edit: None }, reply);
}

#[test]
fn what_no_handler_takes_gets_the_plain_error() {
    let mut handler = Handler::new(MemoryDao::new(), Arc::new(catalog()));
    let dice = chance([1, 2, 3, 4], 10, true);
    assert_eq!(error("Что-то пошло не так"), handler.handle_with(&Interaction::Other, &dice, today()));
    assert_eq!(
        error("Что-то пошло не так"),
        handler.handle_with(&command("nothing", 1, Some(1)), &dice, today())
    );
    assert_eq!(error("Что-то пошло не так"), handler.handle_interaction(&Interaction::Other, today()));
}

#[test]
fn commands_outside_a_guild_are_turned_away() {
    let mut handler = Handler::new(MemoryDao::new(), Arc::new(catalog()));
    let dice = chance([1, 2, 3, 4], 10, true);
    let text = "Мне можно написать только с сервера.";
    assert_eq!(error(text), handler.handle_with(&command("sign_roll", 7, None), &dice, today()));
    assert_eq!(error(text), handler.handle_with(&command("sign_current", 7, None), &dice, today()));
    assert_eq!(error(text), handler.handle_with(&command("sign_my_power", 7, None), &dice, today()));
    assert_eq!(error(text), handler.handle_with(&press(7, None), &dice, today()));
    assert!(handler.dao().get_guild_info(42, today()).unwrap().is_none());
}

#[test]
fn a_day_in_the_life_of_guild_42() {
    let mut handler = Handler::new(MemoryDao::new(), Arc::new(catalog()));

    // user 7 rolls 1, 2, 3, 4
    let rolled = handler.handle_with(
        &command("sign_roll", 7, Some(42)),
        &chance([3, 1, 4, 2], 20, false),
        today(),
    );
    let shown = render(&data("1234", 12), SignState::Created);
    assert_eq!(
        Reply {
            response: Some(Response::Message {
                content: shown.clone(),
                ephemeral: false,
                button: Some(control(false)),
            }),
            edit: None,
        },
        rolled
    );
    let sign = handler.dao().get_guild_info(42, today()).unwrap().unwrap();
    assert_eq!("1234", sign.current_sign.id);
    assert_eq!(7, sign.current_sign.created_by_user_id);
    assert_eq!(SignState::Created, sign.current_sign.state);

    // user 7 rolls again
    let again = handler.handle_with(
        &command("sign_roll", 7, Some(42)),
        &chance([1, 1, 1, 1], 20, false),
        today(),
    );
    assert_eq!(error("Знамение на сегодня уже создано, приходи завтра"), again);
    assert_eq!(sign, handler.dao().get_guild_info(42, today()).unwrap().unwrap());

    // user 7 tries to influence their own sign
    let own = handler.handle_with(&press(7, Some(42)), &chance([1, 1, 1, 1], 20, false), today());
    assert_eq!(error("Повлиять на знамение может только тот, кто его не создавал"), own);
    assert_eq!(sign, handler.dao().get_guild_info(42, today()).unwrap().unwrap());
    assert!(handler.dao().get_user_info(7, 42).unwrap().is_none());

    // user 9 influences: power 10, roll 11 against difficulty 12 fails
    let influenced = handler.handle_with(&press(9, Some(42)), &chance([1, 1, 1, 1], 11, true), today());
    let resolved = render(&data("1234", 12), SignState::Failed { by_user_id: 9 });
    assert_eq!(
        Reply {
            response: Some(Response::Message {
                content: format!(
                    "__**Знамение изменено**__\n*<@9> попытался повлиять на судьбу, но сделал только хуже*\nЕго шаманская сила увеличилась и равна 11\n\n\n{}",
                    resolved
                ),
                ephemeral: false,
                button: None,
            }),
            edit: Some(MessageEdit { message: place(), content: "the sign".to_string(), button: control(true) }),
        },
        influenced
    );
    assert_eq!(
        SignState::Failed { by_user_id: 9 },
        handler.dao().get_guild_info(42, today()).unwrap().unwrap().current_sign.state
    );
    assert_eq!(
        Some(UserInfo { id: 9, guild_id: 42, shaman_power: 11 }),
        handler.dao().get_user_info(9, 42).unwrap()
    );

    // user 9 influences again
    let late = handler.handle_with(&press(9, Some(42)), &chance([1, 1, 1, 1], 20, true), today());
    assert_eq!(error("Кто-то уже повлиял на знамение сегодня"), late);
    assert_eq!(11, handler.dao().get_user_info(9, 42).unwrap().unwrap().shaman_power);

    // anyone can look at the sign and at their power
    let current = handler.handle_with(
        &command("sign_current", 11, Some(42)),
        &chance([1, 1, 1, 1], 20, true),
        today(),
    );
    assert_eq!(
        Reply {
            response: Some(Response::Message { content: resolved, ephemeral: true, button: None }),
            edit: None,
        },
        current
    );
    let power = handler.handle_with(
        &command("sign_my_power", 9, Some(42)),
        &chance([1, 1, 1, 1], 20, true),
        today(),
    );
    assert_eq!(
        Reply {
            response: Some(Response::Message {
                content: "Твоя сила шамана: 11".to_string(),
                ephemeral: true,
                button: None,
            }),
            edit: None,
        },
        power
    );

    // the next day the sign is gone and a new one can be rolled
    let gone = handler.handle_with(
        &command("sign_current", 11, Some(42)),
        &chance([1, 1, 1, 1], 20, true),
        tomorrow(),
    );
    assert_eq!(
        Reply {
            response: Some(Response::Message {
                content: "Сегодня еще не было знамения. Ты можешь создать его!".to_string(),
                ephemeral: true,
                button: None,
            }),
            edit: None,
        },
        gone
    );
    let none = handler.handle_with(&press(9, Some(42)), &chance([1, 1, 1, 1], 20, true), tomorrow());
    assert_eq!(error("Сегодня еще не было знамения. Ты можешь его создать!"), none);
    let next = handler.handle_with(
        &command("sign_roll", 9, Some(42)),
        &chance([1, 1, 1, 1], 20, true),
        tomorrow(),
    );
    assert_eq!(
        Some(Response::Message {
            content: render(&data("1111", 30), SignState::Created),
            ephemeral: false,
            button: Some(control(false)),
        }),
        next.response
    );
    assert_eq!(
        9,
        handler.dao().get_guild_info(42, tomorrow()).unwrap().unwrap().current_sign.created_by_user_id
    );
}

#[test]
fn a_success_may_cost_a_point_of_power() {
    for (coin, power, change) in [(true, 9, "уменьшилась"), (false, 10, "не изменилась")] {
        let mut dao = MemoryDao::new();
        dao.create_sign(42, "1234".to_string(), 7, today()).unwrap().unwrap();
        let reply = modify_sign::run(&mut dao, &catalog(), 9, Some(42), place(), "m", 12, coin, today()).unwrap();
        let resolved = render(&data("1234", 12), SignState::Success { by_user_id: 9 });
        assert_eq!(
            Some(Response::Message {
                content: format!(
                    "__**Знамение изменено**__\n*<@9> попытался повлиять на судьбу, и у него получилось*\nЕго шаманская сила {} и равна {}\n\n\n{}",
                    change, power, resolved
                ),
                ephemeral: false,
                button: None,
            }),
            reply.response
        );
        assert_eq!(Some(MessageEdit { message: place(), content: "m".to_string(), button: control(true) }), reply.edit);
        assert_eq!(power, dao.get_user_info(9, 42).unwrap().unwrap().shaman_power);
        assert_eq!(
            SignState::Success { by_user_id: 9 },
            dao.get_guild_info(42, today()).unwrap().unwrap().current_sign.state
        );
    }
}

#[test]
fn stored_power_shifts_the_roll() {
    let mut dao = MemoryDao::new();
    dao.create_sign(42, "1234".to_string(), 7, today()).unwrap().unwrap();
    dao.save_user_info(UserInfo { id: 9, guild_id: 42, shaman_power: 14 }).unwrap();
    // 14 / 2 - 5 = 2, so a roll of 10 reaches 12
    let reply = modify_sign::run(&mut dao, &catalog(), 9, Some(42), place(), "m", 10, true, today()).unwrap();
    assert!(reply.edit.is_some());
    assert_eq!(13, dao.get_user_info(9, 42).unwrap().unwrap().shaman_power);
    assert_eq!(
        SignState::Success { by_user_id: 9 },
        dao.get_guild_info(42, today()).unwrap().unwrap().current_sign.state
    );
}

#[test]
fn a_sign_that_the_catalog_lacks_is_an_error() {
    let mut dao = MemoryDao::new();
    assert_eq!(
        Err(HandlerError::UnknownSign),
        sign_roll::run(&mut dao, &catalog(), 7, Some(42), &[4, 4, 4, 4], today())
    );
    assert_eq!(
        "4444",
        dao.get_guild_info(42, today()).unwrap().unwrap().current_sign.id
    );
    assert_eq!(Err(HandlerError::UnknownSign), sign_current::run(&dao, &catalog(), Some(42), today()));
    assert_eq!(
        Err(HandlerError::UnknownSign),
        modify_sign::run(&mut dao, &catalog(), 9, Some(42), place(), "m", 10, true, today())
    );
    assert_eq!(
        SignState::Created,
        dao.get_guild_info(42, today()).unwrap().unwrap().current_sign.state
    );
    let mut handler = Handler::new(dao, Arc::new(catalog()));
    assert_eq!(
        error("Что-то пошло не так"),
        handler.handle_with(&press(9, Some(42)), &chance([1, 1, 1, 1], 20, true), today())
    );
}

fn with_power(power: i32) -> MemoryDao {
    let mut dao = MemoryDao::new();
    dao.create_sign(42, "1234".to_string(), 7, today()).unwrap().unwrap();
    dao.save_user_info(UserInfo { id: 9, guild_id: 42, shaman_power: power }).unwrap();
    dao
}

#[test]
fn the_greatest_power_can_still_succeed() {
    // i32::MAX / 2 - 5 is far above the difficulty of 12
    for (coin, after) in [(true, i32::MAX - 1), (false, i32::MAX)] {
        let mut dao = with_power(i32::MAX);
        let reply =
            modify_sign::run(&mut dao, &catalog(), 9, Some(42), place(), "m", 1, coin, today()).unwrap();
        assert!(reply.edit.is_some());
        assert_eq!(after, dao.get_user_info(9, 42).unwrap().unwrap().shaman_power);
        assert_eq!(
            SignState::Success { by_user_id: 9 },
            dao.get_guild_info(42, today()).unwrap().unwrap().current_sign.state
        );
    }
}

#[test]
fn the_least_power_can_still_fail() {
    for coin in [true, false] {
        let mut dao = with_power(i32::MIN);
        let reply =
            modify_sign::run(&mut dao, &catalog(), 9, Some(42), place(), "m", 20, coin, today()).unwrap();
        assert!(reply.edit.is_some());
        assert_eq!(i32::MIN + 1, dao.get_user_info(9, 42).unwrap().unwrap().shaman_power);
        assert_eq!(
            SignState::Failed { by_user_id: 9 },
            dao.get_guild_info(42, today()).unwrap().unwrap().current_sign.state
        );
    }
}

#[test]
fn a_power_that_would_leave_its_range_is_an_error() {
    // the least power that succeeds and pays for it
    let sure = load_signs(vec![data("1234", i32::MIN)]);
    let mut dao = with_power(i32::MIN);
    assert_eq!(
        Err(HandlerError::PowerOutOfRange),
        modify_sign::run(&mut dao, &sure, 9, Some(42), place(), "m", 20, true, today())
    );
    assert_eq!(i32::MIN, dao.get_user_info(9, 42).unwrap().unwrap().shaman_power);
    assert_eq!(
        SignState::Created,
        dao.get_guild_info(42, today()).unwrap().unwrap().current_sign.state
    );
    // the same success without a price goes through
    let reply = modify_sign::run(&mut dao, &sure, 9, Some(42), place(), "m", 20, false, today()).unwrap();
    assert!(reply.edit.is_some());
    assert_eq!(i32::MIN, dao.get_user_info(9, 42).unwrap().unwrap().shaman_power);

    // the greatest power that fails
    let hopeless = load_signs(vec![data("1234", i32::MAX)]);
    let mut dao = with_power(i32::MAX);
    for coin in [true, false] {
        assert_eq!(
            Err(HandlerError::PowerOutOfRange),
            modify_sign::run(&mut dao, &hopeless, 9, Some(42), place(), "m", 20, coin, today())
        );
    }
    assert_eq!(i32::MAX, dao.get_user_info(9, 42).unwrap().unwrap().shaman_power);
    assert_eq!(
        SignState::Created,
        dao.get_guild_info(42, today()).unwrap().unwrap().current_sign.state
    );
}

#[test]
fn a_store_that_is_down_is_not_asked_without_need() {
    let dice = chance([1, 2, 3, 4], 10, true);
    let text = "Мне можно написать только с сервера.";
    assert_eq!(Ok(error(text)), sign_roll::run(&mut Down, &catalog(), 7, None, &[1, 2, 3, 4], today()));
    assert_eq!(Ok(error(text)), sign_current::run(&Down, &catalog(), None, today()));
    assert_eq!(Ok(error(text)), sign_my_power::run(&Down, 7, None));
    assert_eq!(
        Ok(error(text)),
        modify_sign::run(&mut Down, &catalog(), 7, None, place(), "m", 10, true, today())
    );
    let mut handler = Handler::new(Down, Arc::new(catalog()));
    for event in [command("sign_roll", 7, None), command("sign_my_power", 7, None), press(7, None)] {
        assert_eq!(error(text), handler.handle_with(&event, &dice, today()));
    }
    assert_eq!(
        Reply { response: Some(Response::Pong), edit: None },
        handler.handle_with(&Interaction::Ping, &dice, today())
    );
    assert_eq!(
        error("Что-то пошло не так"),
        handler.handle_with(&command("nothing", 7, Some(42)), &dice, today())
    );
}

#[test]
fn a_store_that_is_down_leads_to_the_plain_error() {
    let dice = chance([1, 2, 3, 4], 10, true);
    assert_eq!(
        Err(HandlerError::Store(StoreError::Unavailable)),
        sign_roll::run(&mut Down, &catalog(), 7, Some(42), &[1, 2, 3, 4], today())
    );
    assert_eq!(
        Err(HandlerError::Store(StoreError::CorruptRecord)),
        sign_current::run(&Down, &catalog(), Some(42), today())
    );
    assert_eq!(
        Err(HandlerError::Store(StoreError::Unavailable)),
        sign_my_power::run(&Down, 7, Some(42))
    );
    assert_eq!(
        Err(HandlerError::Store(StoreError::Unavailable)),
        modify_sign::run(&mut Down, &catalog(), 7, Some(42), place(), "m", 10, true, today())
    );
    let mut handler = Handler::new(Down, Arc::new(catalog()));
    for event in [
        command("sign_roll", 7, Some(42)),
        command("sign_current", 7, Some(42)),
        command("sign_my_power", 7, Some(42)),
        press(7, Some(42)),
    ] {
        assert_eq!(error("Что-то пошло не так"), handler.handle_with(&event, &dice, today()));
    }
    assert_eq!(
        Reply { response: Some(Response::Pong), edit: None },
        handler.handle_with(&Interaction::Ping, &dice, today())
    );
}

#[test]
fn an_unseen_user_has_power_ten() {
    let dao = MemoryDao::new();
    let reply = sign_my_power::run(&dao, 7, Some(42)).unwrap();
    assert_eq!(
        Some(Response::Message {
            content: "Твоя сила шамана: 10".to_string(),
            ephemeral: true,
            button: None,
        }),
        reply.response
    );
}

#[test]
fn rolling_with_real_dice_names_a_sign_of_four_sorted_faces() {
    let all: Vec<SignData> = (1111..=4444).map(|n: i32| data(&n.to_string(), 10)).collect();
    for guild in 0..50u64 {
        let mut handler = Handler::new(MemoryDao::new(), Arc::new(load_signs(all.clone())));
        let reply = handler.handle_interaction(&command("sign_roll", 7, Some(guild)), today());
        assert!(reply.edit.is_none());
        let id = handler.dao().get_guild_info(guild, today()).unwrap().unwrap().current_sign.id;
        assert_eq!(4, id.len());
        assert!(id.chars().all(|c| ('1'..='4').contains(&c)));
        assert!(id.as_bytes().windows(2).all(|pair| pair[0] <= pair[1]));
    }
}

#[test]
fn real_dice_are_fair() {
    for _ in 0..200 {
        let chance = Chance::draw();
        assert!(chance.is_fair());
        assert!(chance.faces.iter().all(|face| (1..=4).contains(face)));
        assert!((1..=20).contains(&chance.roll));
    }
    assert!(!chance([0, 1, 1, 1], 1, true).is_fair());
    assert!(!chance([1, 1, 1, 5], 1, true).is_fair());
    assert!(!chance([1, 1, 1, 1], 21, true).is_fair());
    assert!(!chance([1, 1, 1, 1], 0, true).is_fair());
    assert!(chance([1, 4, 1, 4], 20, false).is_fair());
}

#[test]
fn real_dice_do_not_always_show_the_same() {
    let draws: Vec<Chance> = (0..300).map(|_| Chance::draw()).collect();
    for place in 0..4 {
        for face in 1..=4 {
            assert!(draws.iter().any(|chance| chance.faces[place] == face));
        }
    }
    assert!(draws.iter().any(|chance| chance.roll <= 10));
    assert!(draws.iter().any(|chance| chance.roll > 10));
    assert!(draws.iter().any(|chance| chance.coin));
    assert!(draws.iter().any(|chance| !chance.coin));
}

#[test]
fn a_failed_edit_turns_the_answer_into_the_plain_error() {
    let with_edit = Reply {
        response: Some(Response::Pong),
        edit: Some(MessageEdit { message: place(), content: "m".to_string(), button: control(true) }),
    };
    assert_eq!(error("Что-то пошло не так").response, conclude(with_edit, false));
    let with_edit = Reply {
        response: Some(Response::Pong),
        edit: Some(MessageEdit { message: place(), content: "m".to_string(), button: control(true) }),
    };
    assert_eq!(Some(Response::Pong), conclude(with_edit, true));
    assert_eq!(Some(Response::Pong), conclude(Reply { response: Some(Response::Pong), edit: None }, false));
    assert_eq!(None, conclude(Reply { response: None, edit: None }, false));
}

#[test]
fn commands_are_registered_under_their_names() {
    let commands = registered_commands();
    let names: Vec<&str> = commands.iter().map(|c| c.name.as_str()).collect();
    assert_eq!(vec!["sign_roll", "sign_current", "sign_my_power"], names);
    assert_eq!("Roll enoa sign", sign_roll::register().description);
    assert_eq!("Get current enoa sign for this guild", sign_current::register().description);
    assert_eq!("Show my current shaman power", sign_my_power::register().description);
    assert_eq!("hello", hello_world::register().name);
    assert_eq!("Says hello", hello_world::register().description);
    assert_eq!(
        Some(Response::Message { content: "Hello".to_string(), ephemeral: false, button: None }),
        hello_world::run().response
    );
}

#[test]
fn errors_are_shown_to_the_actor_alone() {
    assert_eq!(error("x"), utils::format_error("x"));
    assert_eq!(error(""), utils::format_error(""));
    assert_eq!("change_sign", modify_sign::control_button(false).custom_id);
    assert_eq!(
        "Ты не можешь повлиять на знамение сейчас",
        modify_sign::NOT_NOW
    );
}
