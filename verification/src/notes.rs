//! Longer texts of the pages, in English and Russian.
use vstd::prelude::*;

verus! {

pub const ACTIVE_CONNECTIONS_FRESHEST: &'static str =
    "Active connections from the freshest clash-api snapshot (5-min tick). Includes all auth-bearing connections sing-box currently holds open.";

pub const ACTIVE_CONNECTIONS_FRESHEST_RU: &'static str =
    "Активные соединения из самого свежего snapshot clash-api (тик 5 минут). Включает все авторизованные соединения, которые sing-box сейчас держит открытыми.";

pub const APPEND_DAEMONS_DEPLOY: &'static str =
    "Append the daemon's deploy pubkey to ~/.ssh/authorized_keys on this server. With the password filled it connects via sshpass; leave the password empty to use the configured reference key instead.";

pub const APPEND_DAEMONS_DEPLOY_RU: &'static str =
    "Добавить deploy-pubkey демона в ~/.ssh/authorized_keys на этом сервере. С заполненным паролем подключается через sshpass; оставь пароль пустым, чтобы использовать настроенный reference-key.";

pub const BEFORE_DEPLOY_POINT: &'static str =
    "Before deploy: point a DNS A-record at this server and open TCP 80 (ACME) + the front port. The secret ws path is generated automatically on deploy.";

pub const BEFORE_DEPLOY_POINT_RU: &'static str =
    "До деплоя: направь DNS A-запись на этот сервер и открой TCP 80 (ACME) + фронт-порт. Секретный ws-путь генерируется автоматически при деплое.";

pub const BYTES_CLASH_API: &'static str =
    "Bytes clash-api attributed to sing-box protocols (VLESS/REALITY, TUIC, hy2, Trojan, …) over 24h — the part vpnctl can break down per-user.";

pub const BYTES_CLASH_API_RU: &'static str =
    "Байт, которые clash-api атрибутировал sing-box-протоколам (VLESS/REALITY, TUIC, hy2, Trojan…) за 24ч — часть, которую vpnctl раскладывает по юзерам.";

pub const CADDY_FORWARDPROXY_SERVES: &'static str =
    "Caddy + forwardproxy serves a real cover website (HTTP 200) to probes and tunnels authenticated clients. Domain + email feed Caddy's built-in ACME (Let's Encrypt).";

pub const CADDY_FORWARDPROXY_SERVES_RU: &'static str =
    "Caddy + forwardproxy отдаёт настоящий сайт-прикрытие (HTTP 200) зондам и туннелирует аутентифицированных клиентов. Домен + почта идут во встроенный ACME Caddy (Let's Encrypt).";

pub const CADDY_TERMINATES_REAL: &'static str =
    "Caddy terminates a real Let's-Encrypt cert on the front port, serves a decoy site at /, and reverse_proxies one secret path to a loopback sing-box VLESS+ws inbound. DIRECT (no CDN) — the RU-DPI-resistant, client-universal fallback that runs alongside REALITY on :443.";

pub const CADDY_TERMINATES_REAL_RU: &'static str =
    "Caddy терминирует настоящий сертификат Let's-Encrypt на фронт-порту, отдаёт сайт-приманку на /, и reverse_proxy одного секретного пути на loopback sing-box VLESS+ws. ПРЯМОЙ (без CDN) — устойчивый к RU-DPI, совместимый со всеми клиентами фолбэк рядом с REALITY на :443.";

pub const CLASH_API_SNAPSHOT: &'static str =
    "No clash-api snapshot for this server yet. The poller fires every 5 minutes; refresh after the next tick. Empty also if the deploy key isn't authorised on this node (see Settings → Deploy SSH key).";

pub const CLASH_API_SNAPSHOT_RU: &'static str =
    "Снимка clash-api по этому серверу ещё нет. Поллер запускается каждые 5 минут; обнови после следующего тика. Также пусто если deploy-ключ ещё не авторизован на этой ноде (см. Settings → Deploy SSH key).";

pub const CLIENT_FAMILIES_COLLAPSE: &'static str =
    "«Client families» collapse app-version churn — four Streisand builds count as one client. The raw user-agent count is the upper bound (each version is a distinct string). Clients the UA parser doesn't recognise (the custom ninitux app) leave device_class NULL, so families under-count. TLS fingerprints (JA4) aren't captured — no fingerprint-forwarding proxy is wired.";

pub const CLIENT_FAMILIES_COLLAPSE_RU: &'static str =
    "«Клиентские семейства» схлопывают версии приложения — четыре сборки Streisand считаются одним клиентом. Сырое число user-agent — верхняя граница (каждая версия — отдельная строка). Клиенты, которых парсер UA не узнаёт (кастомный ninitux), оставляют device_class NULL, поэтому семейства недосчитывают. TLS-отпечатки (JA4) не снимаются — прокси с их форвардингом не подключён.";

pub const COULDNT_READ_LIVE: &'static str =
    "Couldn't read the live config (node unreachable or deploy key not authorised on it). Nothing was changed; try again after the node is back, or run a deploy which re-pushes the config anyway.";

pub const COULDNT_READ_LIVE_RU: &'static str =
    "Не удалось прочитать живой конфиг (нода недоступна или deploy-ключ на ней не авторизован). Ничего не менялось; попробуй снова когда нода вернётся, либо запусти deploy — он всё равно перезальёт конфиг.";

pub const DAEMONS_RUNNING_NODE: &'static str =
    "Daemons running on this node. One physical VPS can host multiple (sing-box on 443/TCP + amneziawg on 51820/UDP cohabit cleanly).";

pub const DAEMONS_RUNNING_NODE_RU: &'static str =
    "Демоны, работающие на этой ноде. Один физический VPS может держать несколько (sing-box на 443/TCP + amneziawg на 51820/UDP уживаются нормально).";

pub const DECLARED_PROTOCOL_INVENTORY: &'static str =
    "Declared = protocol in the inventory for this node. Listening = the latest probe found the port open (ss -tlnup). A declared-but-silent port is the dangerous drift; undeclared listeners are usually per-user wg peers.";

pub const DECLARED_PROTOCOL_INVENTORY_RU: &'static str =
    "Заявлено = протокол в инвентаре этой ноды. Слушает = последняя проба нашла порт открытым (ss -tlnup). Заявлено-но-молчит — опасный дрейф; незаявленные слушатели обычно пер-пировые wg-порты.";

pub const DIGITALOCEAN_DROPLETS_MUST: &'static str =
    "DigitalOcean droplets must keep SSH on port 22 (Cloud Firewall blocks the rest). The wizard connects on the port you enter and keeps it — no automatic port change.";

pub const DIGITALOCEAN_DROPLETS_MUST_RU: &'static str =
    "Дроплеты DigitalOcean должны держать SSH на 22 (Cloud Firewall блокирует остальное). Мастер подключается на введённый порт и оставляет его — порт автоматически не меняется.";

pub const EVERY_10_MIN: &'static str =
    " every 10 min for disk/mem/load + listening ports. Blank here means the first probe hasn't landed (fresh server / daemon restart), the node is unreachable over SSH, or this server has no sing-box kernel (only sing-box nodes are probed).";

pub const EVERY_10_MIN_RU: &'static str =
    " каждые 10 минут за disk/mem/load + слушающими портами. Пусто значит: первый probe ещё не прошёл (новый сервер / рестарт демона), нода недоступна по SSH, либо у сервера нет ядра sing-box (probe-ятся только sing-box ноды).";

pub const FRIENDLY_NAME_END: &'static str =
    "Friendly name end users see in their client's server list — the '{Country}' part of the subscription label (e.g. 'Kyrgyzstan VLESS ~alice'). Blank = fall back to the built-in country map, then the uppercased server id.";

pub const FRIENDLY_NAME_END_RU: &'static str =
    "Понятное имя, которое пользователь видит в списке серверов клиента — часть '{Country}' в метке подписки (напр. 'Kyrgyzstan VLESS ~alice'). Пусто = фолбэк на встроенную карту стран, затем на server id в верхнем регистре.";

pub const FULL_DEPLOY_STREAMED: &'static str =
    "Full deploy: streamed live — mint missing per-protocol secrets, SSH into the node, run ensure_installed + apply_config for every enabled kernel, and restart services. Each step and the final status appear in the log below. Re-clicking is safe.";

pub const FULL_DEPLOY_STREAMED_RU: &'static str =
    "Полный деплой с живым логом: дораздать недостающие секреты, подключиться к ноде по SSH, выполнить ensure_installed + apply_config для каждого включённого ядра и перезапустить сервисы. Каждый шаг и итог появятся в логе ниже. Повторный клик безопасен.";

pub const GRANTS_CHANGED_SINCE: &'static str =
    "grants changed since the last deploy. Until you click deploy, the node keeps running the OLD user set — a revoked user can still connect.";

pub const GRANTS_CHANGED_SINCE_RU: &'static str =
    "гранты менялись после последнего деплоя. Пока не нажат deploy, нода работает со СТАРЫМ списком юзеров — отозванный юзер всё ещё может подключиться.";

pub const GRANT_WRITES_PAIR: &'static str =
    "Grant writes the pair into the inventory; keys are minted per protocol on the next deploy. «on node» means the deployed config actually contains the user — grant + forget-to-deploy is the #1 silent failure, the banner below tracks it.";

pub const GRANT_WRITES_PAIR_RU: &'static str =
    "Грант записывает пару в инвентарь; ключи чеканятся по протоколам на следующем деплое. «на ноде» значит, что задеплоенный конфиг реально содержит юзера — грант без деплоя это тихий сбой №1, баннер ниже его отслеживает.";

pub const HEURISTIC_ONE_DEVICE: &'static str =
    "Heuristic. One device usually roams within one ISP /16, while a shared sub URL spreads across many ISPs. Labels: orange = likely shared, green = likely roaming.";

pub const HEURISTIC_ONE_DEVICE_RU: &'static str =
    "Эвристика. Одно устройство обычно ходит в пределах одного ISP /16, а расшаренный sub URL расползается по разным ISP. Метки: оранжевый = вероятно расшарен, зелёный = вероятно роуминг.";

pub const IMPLICIT_ACTIVE_WINDOWS: &'static str =
    "Implicit «active from-to» windows per (user, server), newest activity first. Derived from 5-min clash-poll observations: consecutive ticks extend the session; a gap >15 minutes closes it and the next tick opens a new row. Because activity is sampled every 5 minutes, a window seen in a single tick renders «≤5m» (real duration unknown below that granularity). Peak conns shows the busiest snapshot during the session.";

pub const IMPLICIT_ACTIVE_WINDOWS_RU: &'static str =
    "Окна «активна с-по» на (юзер, сервер), свежая активность сверху. Источник — 5-минутные тики clash-poll: последовательные тики расширяют сессию, пропуск >15 минут закрывает её, следующий тик открывает новую. Активность сэмплится раз в 5 минут, поэтому окно, увиденное одним тиком, показывается как «≤5m» (точная длительность ниже этой гранулярности неизвестна). Peak conns — самый загруженный snapshot в этой сессии.";

pub const LATEST_CLASH_API: &'static str =
    "From the latest clash-api snapshot. clash-api carries no per-protocol tag, only network — so this splits by transport (TCP vs UDP), not by VLESS/TUIC/etc.";

pub const LATEST_CLASH_API_RU: &'static str =
    "Из последнего снимка clash-api. clash-api не несёт тег протокола, только network — поэтому разбивка по транспорту (TCP против UDP), а не по VLESS/TUIC/и т.п.";

pub const LEAVE_BLANK_AUTHENTICATE: &'static str =
    "Leave blank to authenticate with the reference key; fill in to force the sshpass fallback. Used once for the SSH connect, then discarded — never stored, never logged.";

pub const LEAVE_BLANK_AUTHENTICATE_RU: &'static str =
    "Пусто — аутентификация reference-ключом; заполни, чтобы форсировать sshpass-fallback. Используется один раз для SSH-коннекта и отбрасывается — не хранится и не логируется.";

pub const LIVE_STATS_YET: &'static str =
    "No live stats yet. The clash-api poller runs every 5 minutes — blank means no snapshot has covered this user yet: the node may be unreachable over SSH, its sing-box may lack the clash-api block, or the user hasn't connected. The poller needs the SSH key on the vpnctld host's ";

pub const LIVE_STATS_YET_RU: &'static str =
    "Живой статистики пока нет. Поллер clash-api снимает снэпшоты каждые 5 минут — пусто значит ни один снэпшот ещё не зацепил этого юзера: нода может быть недоступна по SSH, в её sing-box может не быть clash-api блока, либо юзер не подключался. Поллеру нужен SSH-ключ на хосте vpnctld в ";

pub const MAXIMUM_SIMULTANEOUS_ACTIVE: &'static str =
    "Maximum simultaneous active connections seen for this user during any 5-min poll window. >50 from a phone client = unusual (chat apps + browser keep ~5-15 sustained); >200 typically means torrent / web-crawler.";

pub const MAXIMUM_SIMULTANEOUS_ACTIVE_RU: &'static str =
    "Максимум одновременных соединений юзера в любом 5-минутном окне поллера. >50 с телефона — необычно (мессенджеры + браузер держат ~5-15); >200 — обычно торрент / краулер.";

pub const MMDB_CITY_ASN: &'static str =
    "MMDB city+ASN files enrich every new sub_access_log row offline. Refresh from Settings — new DBs load on next vpnctld restart.";

pub const MMDB_CITY_ASN_RU: &'static str =
    "MMDB-файлы city+ASN обогащают каждую новую строку sub_access_log оффлайн. Обновление — в Настройках; новые базы подхватываются при рестарте vpnctld.";

pub const MOST_LIKELY_USER: &'static str =
    "Most-likely user_id based on which user has hit subscription URL from this IP in the last 7 days (sub_access_log JOIN). «—» = no match.";

pub const MOST_LIKELY_USER_RU: &'static str =
    "Наиболее вероятный user_id на основе того, какой юзер за последние 7 дней дёргал subscription URL с этого IP (JOIN на sub_access_log). «—» = совпадений нет.";

pub const MOST_RECENT_PROBE: &'static str =
    "Most recent probe is >20 min old — the poller may be stalled. Use the manual sweep button on this page to refresh.";

pub const MOST_RECENT_PROBE_RU: &'static str =
    "Последняя проба старше 20 минут — поллер может быть остановлен. Нажми кнопку ручного сканирования на этой странице, чтобы обновить.";

pub const NEVER_RUN_DAEMON: &'static str =
    "Never run on this daemon. Click below to prove the latest snapshot restores cleanly — takes <1s, doesn't touch the live inv.db.";

pub const NEVER_RUN_DAEMON_RU: &'static str =
    "Никогда не запускался на этом демоне. Кликни ниже чтобы доказать что последний снэпшот восстанавливается чисто — займёт <1с, живую inv.db не трогает.";

pub const NIC_TOTAL_MINUS: &'static str =
    "NIC total minus the attributed part: non-sing-box protocols (naive/Caddy, dns-tunnel, wgturn) + protocol/OS overhead. This is what vpnctl currently can't see per-user.";

pub const NIC_TOTAL_MINUS_RU: &'static str =
    "NIC всего минус атрибутированное: не-sing-box протоколы (naive/Caddy, dns-tunnel, wgturn) + оверхед протокола/ОС. Это то, что vpnctl сейчас не видит по юзерам.";

pub const NODE_PROBE_RUNS: &'static str =
    "node_probe runs on a fixed tick over SSH: service state per kernel, disk/mem/load, log sizes, listening ports. Unknown probes are excluded from uptime denominators.";

pub const NODE_PROBE_RUNS_RU: &'static str =
    "node_probe ходит по SSH с фиксированным тиком: состояние сервисов по каждому ядру, диск/память/load, размеры логов, слушающие порты. Неопределённые пробы не входят в знаменатель uptime.";

pub const NOTE_10_MIN_PROBE: &'static str =
    "10-min probe snapshots over the last 24h. Sparkline reads left-to-right (oldest → newest); the «max» label on each chart is the peak in the window. Use these to tell a slow leak (climbing line) from a transient burst (flat line, one spike).";

pub const NOTE_10_MIN_PROBE_RU: &'static str =
    "10-минутные снимки probe за последние 24 часа. Sparkline читается слева-направо (старое → новое); метка «max» в каждом графике — пик за окно. Помогает отличить медленную утечку (растущая линия) от кратковременного всплеска (плоская линия с одним пиком).";

pub const NOTE_10_MIN_PROBE_SNAPSHOTS: &'static str =
    "10-min probe snapshots, oldest → newest. A climbing line = slow leak; flat with one spike = transient burst. A warm max = the metric crossed its watermark inside the window.";

pub const NOTE_10_MIN_PROBE_SNAPSHOTS_RU: &'static str =
    "10-минутные снимки проб, старое → новое. Растущая линия = медленная утечка; плоская с одним пиком = кратковременный всплеск. Тёплый max = метрика пересекла отметку внутри окна.";

pub const NUMBER_5_MIN: &'static str =
    "Number of 5-min ticks where a connection to this destination was alive. Not connection count — a long-lived connection contributes N hits, N = ticks-it-was-up.";

pub const NUMBER_5_MIN_RU: &'static str =
    "Число 5-мин тиков, в которых соединение к этому destination было активно. Не число соединений — долгое соединение даёт N hits, N = тиков-сколько-жило.";

pub const NUMBER_5_MIN_CLASH: &'static str =
    "Number of 5-min clash ticks where this user had a live connection from this IP. Not bytes, not connection count — activity time.";

pub const NUMBER_5_MIN_CLASH_RU: &'static str =
    "Число 5-мин тиков clash, в которых у юзера было живое соединение с этого IP. Не байты и не число соединений — время активности.";

pub const ONE_CLI_ONLY: &'static str =
    ". This is the one CLI-only exception even on a HEALTHY host (daemon can't replace its own open DB); on a recovery host the daemon doesn't even exist yet. Copy env + assets + deploy key into place; ";

pub const ONE_CLI_ONLY_RU: &'static str =
    ". Это один CLI-only шаг даже на ЗДОРОВОМ хосте (демон не может заменить свою же открытую БД); на recovery-хосте демона ещё нет. Скопируй env + assets + deploy-ключ на места; ";

pub const PASSWORD_EMPTY_DAEMON: &'static str =
    " with password EMPTY — daemon will use the reference key for a silent push. If that key isn't authorised on this specific server, fill in the password to fall back to sshpass.";

pub const PASSWORD_EMPTY_DAEMON_RU: &'static str =
    " с ПУСТЫМ паролем — демон использует reference-key для тихого push. Если этот ключ не авторизован на конкретно этом сервере — заполни пароль для fallback через sshpass.";

pub const PER_CONNECTION_DETAIL: &'static str =
    "Per-connection detail from clash-api. NM-11 (sing-box upstream) drops the `user` field on the wire, so we attribute connections to users via the source-IP ↔ subscription-fetch IP correlation (last 7 days). Best-effort — accuracy drops for NAT collisions.";

pub const PER_CONNECTION_DETAIL_RU: &'static str =
    "Деталь per-connection из clash-api. NM-11 (sing-box upstream) убирает поле `user` из wire-формата, поэтому атрибуция идёт через корреляцию source IP ↔ IP запроса подписки (последние 7 дней). Best-effort — точность падает при коллизии NAT.";

pub const PER_SERVER_ALLOWLIST: &'static str =
    "Per-server allowlist of ports the daemon must NEVER bind via sing-box. Use when a co-tenant service (legacy 3x-ui Docker container, separate xray, another VPN stack) owns one of the standard ports — deploys are refused fail-closed if any rendered inbound would collide.";

pub const PER_SERVER_ALLOWLIST_RU: &'static str =
    "Список портов на этом сервере, которые демону ЗАПРЕЩЕНО занимать через sing-box. Используется когда на хосте уже крутится сторонний сервис (legacy 3x-ui Docker, отдельный xray, другой VPN-стек) на стандартном порту — деплой отказывается, если какой-то рендеренный inbound попытается их занять, fail-closed.";

pub const PER_USER_AMNEZIAWG: &'static str =
    "Per-user AmneziaWG peers each bind their own UDP port — expected, but the inventory doesn't model them yet (NM-14). This grouping keeps the wall readable; there's nothing to click.";

pub const PER_USER_AMNEZIAWG_RU: &'static str =
    "Каждый пер-пировый порт AmneziaWG — свой UDP-сокет: ожидаемо, но инвентарь их пока не моделирует (NM-14). Группировка держит стену читабельной; кликать тут нечего.";

pub const PER_USER_TRAFFIC: &'static str =
    "No per-user traffic attributed on this server yet. Per-user attribution is NULL upstream — clash-api drops the user field (NM-11); see the dashboard note. Server-wide totals still work in the traffic chart below.";

pub const PER_USER_TRAFFIC_RU: &'static str =
    "Трафик по пользователям на этом сервере пока не атрибутирован. Атрибуция per-user пустая на уровне upstream — clash-api убирает поле user (NM-11); см. заметку на дашборде. Серверные итоги всё равно работают в графике трафика ниже.";

pub const PINNED_SHA_256: &'static str =
    "Pinned SHA-256 of the node's SSH ed25519 host key. The CLI deploy refuses a host whose live key doesn't match; the daemon's pipelines (web deploy / probe / clash-poller) verify against their own known_hosts and use this pin to raise a fingerprint-drift warning alert — ";

pub const PINNED_SHA_256_RU: &'static str =
    "Закреплённый SHA-256 хост-ключа ed25519 ноды. CLI-деплой отказывается работать с хостом, чей live-ключ не совпадает; пайплайны демона (web-деплой / probe / clash-poller) сверяются со своим known_hosts, а по этому пину поднимают warning-алерт о дрейфе отпечатка — ";

pub const PLUS_PER_NODE: &'static str =
    " plus per-node authorisation. Once wired, this section will show real per-user upload/download totals and active connection counts.";

pub const PLUS_PER_NODE_RU: &'static str =
    " плюс авторизация на каждой ноде. Когда подключим — раздел покажет реальные upload/download по пользователю и активные подключения.";

pub const PORTS_DAEMON_REFUSES: &'static str =
    "Ports the daemon refuses to bind on this node. The sing-box pre-apply guard fails closed when any rendered inbound collides — so a co-tenant 3x-ui (or any other service vpnctl doesn't manage) can never get overwritten by a forgetful deploy.";

pub const PORTS_DAEMON_REFUSES_RU: &'static str =
    "Порты, которые демон отказывается занимать на этой ноде. Пре-apply-guard sing-box падает fail-closed, если любой рендеренный inbound пересечётся — сторонний 3x-ui (или любой другой сервис, которым vpnctl не управляет) никогда не будет перезаписан забывчивым деплоем.";

pub const PORT_LEVEL_DRIFT: &'static str =
    "The port-level drift above compares declared protocols to listening sockets. This card goes deeper — it reads the node's live sing-box config and lists UUIDs the node still serves that no granted user accounts for (a revoked user whose UUID lingers, or a service account). It's a live SSH read, so it runs only on demand.";

pub const PORT_LEVEL_DRIFT_RU: &'static str =
    "Дрейф по портам выше сравнивает заявленные протоколы со слушающими сокетами. Эта карточка копает глубже — читает живой конфиг sing-box на ноде и показывает UUID, которые нода всё ещё обслуживает, но за которыми не стоит ни один выданный доступ (отозванный юзер, чей UUID завис, или сервисный аккаунт). Это живое SSH-чтение, поэтому запускается только по запросу.";

pub const PRESENCE_LIVE_EACH: &'static str =
    "Presence — live from each node's clash-api snapshot (≤5 min old). NM-11 fallback attributes unresolved connections by source IP; unseen IPs remain uncounted.";

pub const PRESENCE_LIVE_EACH_RU: &'static str =
    "Присутствие — live-снимок clash-api каждой ноды (не старше 5 мин). NM-11 fallback атрибутирует соединения по source IP; незнакомые IP не учитываются.";

pub const PULLED_EACH_NODES: &'static str =
    "Pulled from each node's clash-api by the daemon. Numbers reflect actual VPN traffic (delta-vs-prior-snapshot per tick), not subscription-config fetches.";

pub const PULLED_EACH_NODES_RU: &'static str =
    "Снимается с clash-api каждой ноды демоном. Числа — реальный VPN-трафик (дельта-к-прошлому-снэпшоту на каждом тике), не запросы конфига подписки.";

pub const PUSH_KEY_INSTALL: &'static str =
    ", push its key, install fail2ban + sing-box, render the config, and prove the service is live — all on the next screen. SSH hardening (non-root user, sshd lockdown) is not part of this wizard yet.";

pub const PUSH_KEY_INSTALL_RU: &'static str =
    ", запушит свой ключ, установит fail2ban + sing-box, отрендерит конфиг и проверит что сервис живёт — всё это на следующем экране. SSH-hardening (non-root пользователь, lockdown sshd) пока не входит в этот мастер.";

pub const REALITY_BINDS_PORT: &'static str =
    "REALITY binds this port directly. Default 443 (gold-standard HTTPS cover); set an alternate port when a co-tenant owns 443 on this host (naive/caddy, legacy 3x-ui). Saving re-validates against every other protocol's port and takes effect on deploy.";

pub const REALITY_BINDS_PORT_RU: &'static str =
    "REALITY слушает этот порт напрямую. По умолчанию 443 (золотой стандарт HTTPS-маскировки); задай другой порт, если 443 на этом хосте занят со-жителем (naive/caddy, легаси 3x-ui). При сохранении проверяется против портов всех остальных протоколов и вступает в силу при деплое.";

pub const REAL_INTERFACE_TRAFFIC: &'static str =
    "Real interface traffic (NIC ground-truth — catches ALL protocols, reconciles with the hoster) vs the sing-box part clash-api could attribute. The GAP is everything clash-api can't see: non-sing-box protocols (naive/Caddy, dns-tunnel, wgturn) plus TLS/QUIC overhead.";

pub const REAL_INTERFACE_TRAFFIC_RU: &'static str =
    "Реальный трафик интерфейса (NIC — ловит ВСЕ протоколы, сходится с хостером) против sing-box-части, которую смог атрибутировать clash-api. ГЭП — всё, что clash-api не видит: не-sing-box протоколы (naive/Caddy, dns-tunnel, wgturn) плюс оверхед TLS/QUIC.";

pub const ROLLING_WINDOW_AGGREGATE: &'static str =
    "Rolling-window aggregate over sing_box_active from the node_probe poller (10-min default tick). Up means the service reported active at probe time; unknown probes are excluded from the denominator.";

pub const ROLLING_WINDOW_AGGREGATE_RU: &'static str =
    "Скользящие окна sing_box_active от node_probe-поллера (тик по умолчанию 10 минут). Up означает, что сервис показал active; неопределённые пробы не входят в знаменатель.";

pub const ROLLING_WINDOW_AGGREGATE_OVER: &'static str =
    "Rolling-window aggregate over sing_box_active from the node_probe poller. «up» = the service reports active at probe time; unknown probes are excluded from the denominator.";

pub const ROLLING_WINDOW_AGGREGATE_OVER_RU: &'static str =
    "Скользящие окна sing_box_active от node_probe-поллера. «up» = сервис показал active в момент пробы; неопределённые пробы не входят в знаменатель.";

pub const RUNS_FULL_PROBE: &'static str =
    "Runs the full probe sweep immediately instead of waiting for the next tick. SSH into every node — takes a few seconds per node; a down node adds its connect timeout.";

pub const RUNS_FULL_PROBE_RU: &'static str =
    "Запускает полный обход проб немедленно, не дожидаясь следующего тика. SSH на каждую ноду — несколько секунд на ноду; упавшая нода добавляет свой connect-timeout.";

pub const SAVE_SERVERS_DISPLAY: &'static str =
    "Save this server's display label. Takes effect on the next subscription pull by each client; cached URIs are unaffected.";

pub const SAVE_SERVERS_DISPLAY_RU: &'static str =
    "Сохранить отображаемую метку этого сервера. Применится при следующем обновлении подписки у каждого клиента; на кэшированные URI не влияет.";

pub const SAVE_SHA256_FINGERPRINT: &'static str =
    "Save the SHA256 fingerprint you pasted above as the trusted host key for this server (TOFU pin). Future SSH connections refuse if the node presents a different key — protects against MITM after the initial trust.";

pub const SAVE_SHA256_FINGERPRINT_RU: &'static str =
    "Сохранить вставленный выше SHA256-отпечаток как доверенный host-ключ для этого сервера (TOFU pin). Будущие SSH-коннекты откажутся если нода предъявит другой ключ — защита от MITM после первичного доверия.";

pub const SERVER_WIDE_TOTALS: &'static str =
    "Server-wide totals from this node's clash-api (5-minute tick). Numbers reflect actual VPN traffic — VLESS, TUIC, Trojan auth all summed. AmneziaWG / wgturn are kernel-level and not visible to clash-api, so they're NOT counted here. ";

pub const SERVER_WIDE_TOTALS_RU: &'static str =
    "Сервер-агрегатные показатели из clash-api ноды (тик 5 минут). Числа отражают реальный VPN-трафик — VLESS, TUIC, Trojan сложены вместе. AmneziaWG / wgturn — kernel-уровень, не видны clash-api, поэтому НЕ учитываются.";

pub const SERVER_WIDE_UPLOAD: &'static str =
    "Server-wide upload+download from clash-api 5-min ticks, bucketed across the window. Pick a window below — the sparkline + totals update together.";

pub const SERVER_WIDE_UPLOAD_RU: &'static str =
    "Серверный upload+download с 5-минутных тиков clash-api, разложенный по окну. Выбери окно ниже — спарклайн и итоги обновятся вместе.";

pub const SHA_256_NODES: &'static str =
    "The SHA-256 of the node's SSH host public key, pinned in the inventory. Every SSH-using subsystem (deploy, probe, clash-poller) verifies the live key matches before sending any secrets — protects against MITM if someone hijacks the IP.";

pub const SHA_256_NODES_RU: &'static str =
    "SHA-256 публичного SSH-ключа ноды, закреплённый в инвентаре. Все подсистемы которые используют SSH (деплой, probe, clash-poller) проверяют что live-ключ совпадает прежде чем посылать секреты — защита от MITM если кто-то перехватит IP.";

pub const SOURCE_IP_HISTORY: &'static str =
    "No source-IP history yet. The poller records one hit per (client IP, 5-min tick) a connection was attributed to this user — wait for the next clash-api scrape, or the user simply hasn't connected.";

pub const SOURCE_IP_HISTORY_RU: &'static str =
    "Истории по source IP ещё нет. Поллер пишет один hit на (клиентский IP, 5-мин тик), в котором соединение отнесено к этому юзеру — подожди следующий скрейп clash-api, либо юзер просто не подключался.";

pub const SSHES_SUPPLIED_USER: &'static str =
    "SSHes in with the supplied user and password once, installs the deploy key, discards the password, installs kernels, mints secrets, deploys, probes. Non-root users are elevated with passwordless sudo. Don't close this tab — the live log attaches once; the bootstrap finishes server-side either way and the result lands on the server's detail page + audit timeline.";

pub const SSHES_SUPPLIED_USER_RU: &'static str =
    "Заходит по SSH под указанным пользователем и паролем один раз, ставит deploy-ключ, забывает пароль, ставит ядра, чеканит секреты, деплоит, пробит. Пользователь не root повышается через беспарольный sudo. Не закрывай вкладку — живой лог подключается один раз; bootstrap всё равно доработает серверно, результат будет на странице сервера и в audit-таймлайне.";

pub const STEPS_1_2: &'static str =
    "Steps 1+2 run on a NEW host (because 236 is presumed dead — there's no daemon to push buttons on). Step 3 returns to the normal Web UI on the recovered daemon.";

pub const STEPS_1_2_RU: &'static str =
    "Шаги 1+2 выполняются на НОВОМ хосте (потому что 236 предположительно мёртв — некому жать кнопки в UI). Шаг 3 возвращается к обычному Web UI на восстановленном демоне.";

pub const SUM_UPLOAD_BYTES: &'static str =
    "Sum of upload-bytes deltas from clash-api 5-min ticks over the picked window, weighted by each node's usage coefficient. Counts everything sing-box saw on this user's auth — VLESS, TUIC, Trojan; WireGuard NOT included (kernel-level, no clash-api visibility).";

pub const SUM_UPLOAD_BYTES_RU: &'static str =
    "Сумма upload-дельт clash-api (тик 5 минут) за выбранное окно, взвешенная коэффициентом нагрузки ноды. Считает всё, что sing-box видел на auth этого юзера — VLESS, TUIC, Trojan; WireGuard НЕ входят (kernel-уровень, clash-api их не видит).";

pub const THEN_RESTART_VPNCTLD: &'static str =
    " (then restart vpnctld) to skip the password input on future pushes — useful when an operator key is already authorised on every server.";

pub const THEN_RESTART_VPNCTLD_RU: &'static str =
    " демона (затем перезапусти vpnctld) — это позволит обходить ввод пароля на будущих push'ах, удобно когда operator-ключ уже авторизован на каждом сервере.";

pub const TOTAL_BYTES_RX: &'static str =
    "Total bytes (rx+tx) on the node's default-route interface over 24h, summed from the probe's cumulative counters. This is the real traffic — every protocol, plus overhead.";

pub const TOTAL_BYTES_RX_RU: &'static str =
    "Всего байт (rx+tx) на default-route интерфейсе ноды за 24ч, сумма дельт кумулятивных счётчиков probe. Это реальный трафик — все протоколы плюс оверхед.";

pub const TRUST_FIRST_USE: &'static str =
    "Trust-On-First-Use: accept whatever host key the node presents the first time, refuse changes afterwards. Standard SSH posture; same model `~/.ssh/known_hosts` uses.";

pub const TRUST_FIRST_USE_RU: &'static str =
    "Trust-On-First-Use: принять любой host-ключ который нода предъявляет в первый раз, затем отказываться от смены. Стандартная SSH-модель; так же как `~/.ssh/known_hosts`.";

pub const UPGRADE_KERNEL_BINARIES: &'static str =
    "Upgrade the kernel binaries only: streamed live, this probes each declared kernel's version, upgrades the package (apt upgrade), restarts the service, then probes the version again. The running config is left untouched, so this is safe on an inventory-drift node.";

pub const UPGRADE_KERNEL_BINARIES_RU: &'static str =
    "Обновить только бинарники ядер: с живым логом — снять версию каждого ядра, обновить пакет (apt upgrade), перезапустить сервис и снять версию снова. Рабочий конфиг не меняется, поэтому действие безопасно при дрейфе инвентаря.";

pub const USED_ONCE_PUSH: &'static str =
    "Used once to push our SSH key; every later step authenticates with the key. Held in daemon memory for 10 minutes; nothing is written to disk. Password auth stays as the host had it.";

pub const USED_ONCE_PUSH_RU: &'static str =
    "Используется один раз чтобы запушить наш SSH-ключ; дальше все шаги ходят по ключу. Лежит в памяти демона 10 минут; на диск ничего не пишется. Password-auth остаётся как был на хосте.";

pub const WATERMARKS_HEALTH_MONITOR: &'static str =
    "Watermarks the health monitor evaluates on every probe. Crossing one opens an alert; recovery auto-resolves it (with hysteresis on disk/mem). The 70% warm tint in tables is a visual watermark only — alerts fire at the values below.";

pub const WATERMARKS_HEALTH_MONITOR_RU: &'static str =
    "Отметки, которые монитор здоровья проверяет на каждой пробе. Пересечение открывает алерт; восстановление закрывает его само (с гистерезисом на диске/памяти). Тёплые ячейки от 70% в таблицах — только визуальная отметка; алерты срабатывают на значениях ниже.";

pub const WHAT_HAPPENS_WHEN: &'static str =
    "What happens when the homelab host disappears and you need to bring vpnctld back from scratch — sources of truth, what's in each bundle, the self-test status, and the 3-step recovery path. Click the button below ANY time to prove the latest snapshot is restorable BEFORE you need to do it for real.";

pub const WHAT_HAPPENS_WHEN_RU: &'static str =
    "Что произойдёт когда хост homelab пропадёт и нужно поднять vpnctld с нуля — источники истины, что в каждом архиве, статус self-test'а и трёхшаговый план восстановления. Нажми кнопку ниже ЛЮБОЕ время чтобы доказать что последний снэпшот восстанавливается ДО того как это станет нужно по-настоящему.";

pub const WHEN_DAEMON_REMOVES: &'static str =
    "When ON, the daemon removes this server from clients' subscriptions after it fails the unreachable threshold (3 consecutive SSH probes ≈ 30 min) and restores it on the first successful probe. OFF (default) = a down server stays in the subscription and clients fall back on their own.";

pub const WHEN_DAEMON_REMOVES_RU: &'static str =
    "Когда ВКЛ, демон убирает этот сервер из подписок клиентов после порога недоступности (3 неудачные SSH-пробы подряд ≈ 30 мин) и возвращает при первой успешной пробе. ВЫКЛ (по умолчанию) = упавший сервер остаётся в подписке, клиенты фолбэкаются сами.";

pub const WHEN_DB_IP: &'static str =
    "When the DB-IP Lite (or MaxMind GeoLite2) MMDB files are present in this dir, every new sub_access_log row is enriched with country ISO + ASN before being persisted. Old rows + dimensions the DB doesn't recognise stay NULL — render falls back to bare IP. The DBs are queried OFFLINE — no network requests during request handling.";

pub const WHEN_DB_IP_RU: &'static str =
    "Когда в этой папке лежат файлы DB-IP Lite (или MaxMind GeoLite2) в формате MMDB, каждая новая строка sub_access_log обогащается ISO-кодом страны + ASN перед сохранением. Старые строки и dimensions, которые DB не распознала, остаются NULL — рендер откатывается к голому IP. БД читаются ОФФЛАЙН — никаких сетевых запросов на пути запроса.";

pub const WHEN_NODES_NAIVE: &'static str =
    "When ON, this node's naive AND HY2 share-links carry a shared `pair=<server id>` tag, so a client routes UDP — which naive can't carry — over the HY2 co-located on the same node. Effective only if this server has BOTH naive and HY2 enabled. Pairing is single-server only (the tag is this server's id). OFF (default) = no pair tag.";

pub const WHEN_NODES_NAIVE_RU: &'static str =
    "Когда ВКЛ, naive- и HY2-ссылки этого узла получают общий тег `pair=<id сервера>`, чтобы клиент гнал UDP (который naive не умеет) через HY2 на том же узле. Действует только если на сервере включены И naive, И HY2. Пара — строго в рамках одного сервера (тег = id этого сервера). ВЫКЛ (по умолчанию) = без тега pair.";

pub const WHERE_ONE_SUBSCRIPTION: &'static str =
    "Where this one subscription URL was fetched from over the last 30 days — real client IPs only (VPN-egress excluded). Many countries / ISPs / IPs for a single subscription is the clearest who-is-sharing signal.";

pub const WHERE_ONE_SUBSCRIPTION_RU: &'static str =
    "Откуда тянули этот один URL подписки за последние 30 дней — только реальные клиентские IP (VPN-egress исключён). Много стран / ISP / IP на одну подписку — самый явный сигнал, что ссылку расшарили.";

pub const WHICH_CLIENT_IPS: &'static str =
    "Which client IPs this user actually connected FROM (real VPN connections, not /sub fetches), over the last 30 days. Activity-weighted: hits = 5-min ticks the IP was live, not bytes. Private / LAN / CGNAT addresses are labelled rather than left as «(unknown)». Many distinct public IPs or countries = the strongest grounded sharing signal.";

pub const WHICH_CLIENT_IPS_RU: &'static str =
    "С каких клиентских IP юзер реально подключался (реальные VPN-соединения, не обращения к /sub) за 30 дней. Взвешено активностью: hits = 5-мин тики, в которых IP был живой, не байты. Приватные / LAN / CGNAT адреса подписаны, а не оставлены как «(неизвестно)». Много разных публичных IP или стран = самый достоверный сигнал расшаривания.";

pub const WHICH_HOSTS_USER: &'static str =
    "Which hosts this user connects to most often. Derived from clash-api snapshots (one hit per 5-minute tick where a connection to that destination was active). Reverse-DNS resolved when possible (Phase 5a-2 cache).";

pub const WHICH_HOSTS_USER_RU: &'static str =
    "На какие хосты юзер ходит чаще всего. Источник — snapshot'ы clash-api (один hit на 5-минутный тик, в котором соединение к этому destination было активно). Reverse-DNS подставляется когда возможно (Phase 5a-2 cache).";

pub const WORKLOAD_ONLY_SERVERS: &'static str =
    "Workload-only servers cannot receive user grants or enter subscriptions/fleet actions. A jump host is used only for explicit management.";

pub const WORKLOAD_ONLY_SERVERS_RU: &'static str =
    "Workload-only серверы не получают пользовательские grants и не входят в подписки/fleet actions. Jump host используется только для явного управления.";

} // verus!
