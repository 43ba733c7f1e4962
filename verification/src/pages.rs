//! The four static pages the service serves.
//!
//! Each is a fixed HTML document; the dynamic leaderboard page is
//! rendered by the caller from the ranking the registry computes.

use vstd::prelude::*;

verus! {

/// The landing page: the login form that triggers a scrape.
pub fn index() -> (r: &'static str) {
    r#"
	<!DOCTYPE html>
	<html>
	<head>
		<title>UCampus EduGame</title>
		<style>
			body {
				font-family: Arial, sans-serif;
				max-width: 600px;
				margin: 50px auto;
				padding: 20px;
				background: #f5f5f5;
			}
			.container {
				background: white;
				padding: 30px;
				border-radius: 10px;
				box-shadow: 0 2px 10px rgba(0,0,0,0.1);
			}
			h1 {
				color: #333;
				text-align: center;
				margin-bottom: 30px;
			}
			.navigation {
				text-align: center;
				margin-bottom: 20px;
			}
			.nav-button {
				display: inline-block;
				margin: 0 10px 10px;
				padding: 10px 20px;
				background: #28a745;
				color: white;
				text-decoration: none;
				border-radius: 5px;
				transition: background 0.3s;
			}
			.nav-button:hover {
				background: #1e7e34;
			}
			.form-group {
				margin-bottom: 20px;
			}
			label {
				display: block;
				margin-bottom: 5px;
				font-weight: bold;
				color: #555;
			}
			input[type="email"], input[type="password"] {
				width: 100%;
				padding: 12px;
				border: 1px solid #ddd;
				border-radius: 5px;
				box-sizing: border-box;
				font-size: 16px;
			}
			button {
				width: 100%;
				padding: 12px;
				background: #007bff;
				color: white;
				border: none;
				border-radius: 5px;
				font-size: 16px;
				cursor: pointer;
				transition: background 0.3s;
			}
			button:hover {
				background: #0056b3;
			}
			button:disabled {
				background: #ccc;
				cursor: not-allowed;
			}
			.result {
				margin-top: 30px;
				padding: 20px;
				background: #f8f9fa;
				border-radius: 5px;
				border-left: 4px solid #007bff;
			}
			.error {
				color: #dc3545;
				background: #f8d7da;
				border-left-color: #dc3545;
			}
			.success {
				color: #155724;
				background: #d4edda;
				border-left-color: #28a745;
			}
			.grade-section {
				margin-bottom: 20px;
			}
			.grade-section h3 {
				color: #007bff;
				margin-bottom: 10px;
			}
			.grade-item {
				margin: 5px 0;
				padding: 5px 10px;
				background: white;
				border-radius: 3px;
				border: 1px solid #ddd;
			}
			.loading {
				text-align: center;
				color: #666;
			}
			.gamification {
				background: #e8f5e8;
				border-left-color: #28a745;
				margin-top: 20px;
			}
			.stats {
				display: grid;
				grid-template-columns: repeat(auto-fit, minmax(150px, 1fr));
				gap: 10px;
				margin-top: 15px;
			}
			.stat-item {
				background: white;
				padding: 10px;
				border-radius: 5px;
				text-align: center;
				border: 1px solid #ddd;
			}
		</style>
	</head>
	<body>
		<div class="container">
			<h1>UCampus Gamificacion EduGame</h1>
			
			<div class="navigation">
				<a href="/leaderboard" class="nav-button">🏆 Leaderboard</a>
				<a href="/coinflip" class="nav-button">🪙 Coin Flip Game</a>
				<a href="/shop" class="nav-button">🛒 Tienda</a>
				<a href="/slots" class="nav-button">🎰 Slots</a>
			</div>
			
			<form id="loginForm">
				<div class="form-group">
					<label for="username">Email:</label>
					<input type="email" id="username" name="username" required 
						   placeholder="example@alumnos.uahurtado.cl">
				</div>
				<div class="form-group">
					<label for="password">Contraseña:</label>
					<input type="password" id="password" name="password" required>
				</div>
				<button type="submit" id="submitBtn">Obtener puntaje</button>
			</form>
			<div id="result"></div>
		</div>

		<script>
			document.getElementById('loginForm').addEventListener('submit', async (e) => {
				e.preventDefault();
				
				const submitBtn = document.getElementById('submitBtn');
				const resultDiv = document.getElementById('result');
				
				submitBtn.disabled = true;
				submitBtn.textContent = 'Cargando...';
				resultDiv.innerHTML = '<div class="result loading">Sacando datos, espera...</div>';
				
				const formData = new FormData(e.target);
				const urlEncodedData = new URLSearchParams(formData);
				
				try {
					const response = await fetch('/scrape', {
						method: 'POST',
						headers: {
							'Content-Type': 'application/x-www-form-urlencoded',
						},
						body: urlEncodedData
					});
					
					if (response.ok) {
						const data = await response.json();
						displayResults(data);
					} else {
						const error = await response.text();
						resultDiv.innerHTML = `<div class="result error">Error: ${error}</div>`;
					}
				} catch (error) {
					resultDiv.innerHTML = `<div class="result error">Error de la red: ${error.message}</div>`;
				} finally {
					submitBtn.disabled = false;
					submitBtn.textContent = 'Obtener puntaje';
				}
			});
			
			function displayResults(data) {
				const resultDiv = document.getElementById('result');
				let statusMessage = data.is_new_user ? 
					'<div class="result success">¡Bienvenido! Tu cuenta ha sido registrada en el sistema.</div>' :
					'<div class="result">Datos actualizados en el sistema.</div>';
				
				resultDiv.innerHTML = statusMessage + `
					<div class="result">
						<h2>Estudiante: ${data.name}</h2>
						
						<div class="grade-section">
							<h3>Rendimiento academico</h3>
							<div class="grade-item">Puntos totales por notas: ${data.grades}</div>
							<div class="grade-item">Notas promedio [Electivo y habilidades]: ${data.mean.toFixed(2)}</div>
							<div class="grade-item">Asistencia: ${data.assist}%</div>
						</div>
						
						<div class="result gamification">
							<h3>🎮 Estadisticas de gamificacion</h3>
							<div class="stats">
								<div class="stat-item">
									<strong>Nivel</strong><br>
									${data.level}
								</div>
								<div class="stat-item">
									<strong>Experiencia</strong><br>
									${data.exp} XP
								</div>
								<div class="stat-item">
									<strong>Monedas</strong><br>
									${data.coins} 🪙
								</div>
								<div class="stat-item">
									<strong>Bonus</strong><br>
									${data.bonus}
								</div>
								<div class="stat-item">
									<strong>Castigos</strong><br>
									${data.penalty}
								</div>
							</div>
						</div>
					</div>
				`;
			}
		</script>
	</body>
	</html>
	"#
}

/// The coin flip game page.
pub fn coinflip_page() -> (r: &'static str) {
    r#"
	<!DOCTYPE html>
	<html>
	<head>
		<title>Coin Flip - UCampus Gamification</title>
		<style>
			body {
				font-family: Arial, sans-serif;
				max-width: 600px;
				margin: 50px auto;
				padding: 20px;
				background: #f5f5f5;
			}
			.container {
				background: white;
				padding: 30px;
				border-radius: 10px;
				box-shadow: 0 2px 10px rgba(0,0,0,0.1);
			}
			h1 {
				color: #333;
				text-align: center;
				margin-bottom: 30px;
			}
			.navigation {
				text-align: center;
				margin-bottom: 30px;
			}
			.nav-button {
				display: inline-block;
				margin: 0 10px 10px;
				padding: 10px 20px;
				background: #007bff;
				color: white;
				text-decoration: none;
				border-radius: 5px;
				transition: background 0.3s;
			}
			.nav-button:hover {
				background: #0056b3;
			}
			.form-group {
				margin-bottom: 20px;
			}
			label {
				display: block;
				margin-bottom: 5px;
				font-weight: bold;
				color: #555;
			}
			input[type="email"], input[type="number"], select {
				width: 100%;
				padding: 12px;
				border: 1px solid #ddd;
				border-radius: 5px;
				box-sizing: border-box;
				font-size: 16px;
			}
			.choice-buttons {
				display: flex;
				gap: 20px;
				margin: 20px 0;
			}
			.choice-btn {
				flex: 1;
				padding: 20px;
				font-size: 18px;
				border: 2px solid #ddd;
				background: white;
				border-radius: 10px;
				cursor: pointer;
				transition: all 0.3s;
			}
			.choice-btn:hover {
				background: #f0f0f0;
			}
			.choice-btn.selected {
				background: #007bff;
				color: white;
				border-color: #007bff;
			}
			button {
				width: 100%;
				padding: 15px;
				background: #28a745;
				color: white;
				border: none;
				border-radius: 5px;
				font-size: 18px;
				cursor: pointer;
				transition: background 0.3s;
			}
			button:hover {
				background: #1e7e34;
			}
			button:disabled {
				background: #ccc;
				cursor: not-allowed;
			}
			.result {
				margin-top: 30px;
				padding: 20px;
				background: #f8f9fa;
				border-radius: 5px;
				border-left: 4px solid #007bff;
				text-align: center;
			}
			.win {
				background: #d4edda;
				border-left-color: #28a745;
				color: #155724;
			}
			.lose {
				background: #f8d7da;
				border-left-color: #dc3545;
				color: #721c24;
			}
			.error {
				background: #f8d7da;
				border-left-color: #dc3545;
				color: #721c24;
			}
			.coin {
				font-size: 100px;
				margin: 20px 0;
				animation: flip 1s ease-in-out;
			}
			@keyframes flip {
				0% { transform: rotateY(0deg); }
				50% { transform: rotateY(180deg); }
				100% { transform: rotateY(360deg); }
			}
			.balance {
				background: #e3f2fd;
				border: 1px solid #2196f3;
				padding: 15px;
				border-radius: 5px;
				margin-bottom: 20px;
				text-align: center;
				font-size: 18px;
				font-weight: bold;
			}
		</style>
	</head>
	<body>
		<div class="container">
			<h1>🪙 Coin Flip Game</h1>
			
			<div class="navigation">
				<a href="/" class="nav-button">🏠 Inicio</a>
				<a href="/leaderboard" class="nav-button">🏆 Leaderboard</a>
				<a href="/shop" class="nav-button">🛒 Tienda</a>
				<a href="/slots" class="nav-button">🎰 Slots</a>
			</div>
			
			<div id="balanceDiv" class="balance" style="display: none;">
				Monedas disponibles: <span id="currentBalance">0</span> 🪙
			</div>
			
			<form id="coinFlipForm">
				<div class="form-group">
					<label for="username">Email:</label>
					<input type="email" id="username" name="username" required 
						   placeholder="example@alumnos.uahurtado.cl">
				</div>
				<div class="form-group">
					<label for="bet_amount">Cantidad a apostar:</label>
					<input type="number" id="bet_amount" name="bet_amount" min="1" max="1000" required 
						   placeholder="Ej: 10">
				</div>
				<div class="form-group">
					<label>Elige tu apuesta:</label>
					<div class="choice-buttons">
						<div class="choice-btn" data-choice="heads">
							<div style="font-size: 30px;">🪙</div>
							<div>Cara</div>
						</div>
						<div class="choice-btn" data-choice="tails">
							<div style="font-size: 30px;">⚫</div>
							<div>Sello</div>
						</div>
					</div>
				</div>
				<button type="submit" id="flipBtn">🎲 Lanzar Moneda</button>
			</form>
			<div id="result"></div>
		</div>

		<script>
			let selectedChoice = '';
			
			document.querySelectorAll('.choice-btn').forEach(btn => {
				btn.addEventListener('click', () => {
					document.querySelectorAll('.choice-btn').forEach(b => b.classList.remove('selected'));
					btn.classList.add('selected');
					selectedChoice = btn.dataset.choice;
				});
			});

			document.getElementById('username').addEventListener('blur', async (e) => {
				const username = e.target.value;
				if (username) {
					try {
						const response = await fetch(`/balance/${encodeURIComponent(username)}`);
						if (response.ok) {
							const data = await response.json();
							document.getElementById('currentBalance').textContent = data.coins;
							document.getElementById('balanceDiv').style.display = 'block';
							document.getElementById('bet_amount').max = data.coins;
						} else {
							document.getElementById('balanceDiv').style.display = 'none';
						}
					} catch (error) {
						console.log('Usuario no encontrado en el sistema');
						document.getElementById('balanceDiv').style.display = 'none';
					}
				}
			});
			
			document.getElementById('coinFlipForm').addEventListener('submit', async (e) => {
				e.preventDefault();
				
				if (!selectedChoice) {
					alert('Por favor, elige cara o sello');
					return;
				}
				
				const flipBtn = document.getElementById('flipBtn');
				const resultDiv = document.getElementById('result');
				
				flipBtn.disabled = true;
				flipBtn.textContent = 'Lanzando...';
				
				const formData = new FormData(e.target);
				formData.append('choice', selectedChoice);
				const urlEncodedData = new URLSearchParams(formData);
				
				try {
					const response = await fetch('/play-coinflip', {
						method: 'POST',
						headers: {
							'Content-Type': 'application/x-www-form-urlencoded',
						},
						body: urlEncodedData
					});
					
					if (response.ok) {
						const data = await response.json();
						displayFlipResult(data);
						document.getElementById('currentBalance').textContent = data.new_balance;
						document.getElementById('bet_amount').max = data.new_balance;
					} else {
						const error = await response.text();
						resultDiv.innerHTML = `<div class="result error">Error: ${error}</div>`;
					}
				} catch (error) {
					resultDiv.innerHTML = `<div class="result error">Error de la red: ${error.message}</div>`;
				} finally {
					flipBtn.disabled = false;
					flipBtn.textContent = '🎲 Lanzar Moneda';
				}
			});
			
			function displayFlipResult(data) {
				const resultDiv = document.getElementById('result');
				const coinEmoji = data.result === 'heads' ? '🪙' : '⚫';
				const resultClass = data.won ? 'win' : 'lose';
				const message = data.won ? 
					`¡Ganaste! +${data.coins_won} monedas` : 
					`Perdiste -${data.coins_lost} monedas`;
				
				resultDiv.innerHTML = `
					<div class="result ${resultClass}">
						<div class="coin">${coinEmoji}</div>
						<h3>Resultado: ${data.result === 'heads' ? 'Cara' : 'Sello'}</h3>
						<p>${message}</p>
						<p><strong>Monedas restantes: ${data.new_balance} 🪙</strong></p>
					</div>
				`;
			}
		</script>
	</body>
	</html>
	"#
}

/// The shop page.
pub fn shop_page() -> (r: &'static str) {
    r#"
	<!DOCTYPE html>
	<html>
	<head>
		<title>Tienda - UCampus Gamification</title>
		<style>
			body {
				font-family: Arial, sans-serif;
				max-width: 800px;
				margin: 50px auto;
				padding: 20px;
				background: #f5f5f5;
			}
			.container {
				background: white;
				padding: 30px;
				border-radius: 10px;
				box-shadow: 0 2px 10px rgba(0,0,0,0.1);
			}
			h1 {
				color: #333;
				text-align: center;
				margin-bottom: 30px;
			}
			.navigation {
				text-align: center;
				margin-bottom: 30px;
			}
			.nav-button {
				display: inline-block;
				margin: 0 10px 10px;
				padding: 10px 20px;
				background: #007bff;
				color: white;
				text-decoration: none;
				border-radius: 5px;
				transition: background 0.3s;
			}
			.nav-button:hover {
				background: #0056b3;
			}
			.balance {
				background: #e3f2fd;
				border: 1px solid #2196f3;
				padding: 15px;
				border-radius: 5px;
				margin-bottom: 20px;
				text-align: center;
				font-size: 18px;
				font-weight: bold;
			}
			.shop-items {
				display: grid;
				grid-template-columns: repeat(auto-fit, minmax(300px, 1fr));
				gap: 20px;
				margin-bottom: 30px;
			}
			.shop-item {
				border: 2px solid #ddd;
				border-radius: 10px;
				padding: 20px;
				background: white;
				transition: all 0.3s;
			}
			.shop-item:hover {
				border-color: #007bff;
				box-shadow: 0 4px 12px rgba(0,123,255,0.2);
			}
			.item-header {
				text-align: center;
				margin-bottom: 15px;
			}
			.item-icon {
				font-size: 40px;
				margin-bottom: 10px;
			}
			.item-name {
				font-size: 20px;
				font-weight: bold;
				color: #333;
				margin-bottom: 5px;
			}
			.item-price {
				font-size: 18px;
				color: #28a745;
				font-weight: bold;
			}
			.item-description {
				color: #666;
				margin: 15px 0;
				text-align: center;
			}
			.purchase-form {
				display: flex;
				gap: 10px;
				align-items: center;
				justify-content: center;
			}
			.quantity-input {
				width: 60px;
				padding: 8px;
				border: 1px solid #ddd;
				border-radius: 5px;
				text-align: center;
			}
			.buy-btn {
				padding: 10px 20px;
				background: #28a745;
				color: white;
				border: none;
				border-radius: 5px;
				cursor: pointer;
				transition: background 0.3s;
			}
			.buy-btn:hover {
				background: #1e7e34;
			}
			.buy-btn:disabled {
				background: #ccc;
				cursor: not-allowed;
			}
			.form-group {
				margin-bottom: 20px;
			}
			label {
				display: block;
				margin-bottom: 5px;
				font-weight: bold;
				color: #555;
			}
			input[type="email"] {
				width: 100%;
				padding: 12px;
				border: 1px solid #ddd;
				border-radius: 5px;
				box-sizing: border-box;
				font-size: 16px;
			}
			.result {
				margin-top: 20px;
				padding: 15px;
				border-radius: 5px;
				border-left: 4px solid #007bff;
			}
			.success {
				background: #d4edda;
				border-left-color: #28a745;
				color: #155724;
			}
			.error {
				background: #f8d7da;
				border-left-color: #dc3545;
				color: #721c24;
			}
		</style>
	</head>
	<body>
		<div class="container">
			<h1>🛒 UAHShop</h1>
			
			<div class="navigation">
				<a href="/" class="nav-button">🏠 Inicio</a>
				<a href="/leaderboard" class="nav-button">🏆 Leaderboard</a>
				<a href="/coinflip" class="nav-button">🪙 Coin Flip</a>
				<a href="/slots" class="nav-button">🎰 Slots</a>
			</div>
			
			<div class="form-group">
				<label for="username">Email:</label>
				<input type="email" id="username" required 
					   placeholder="example@alumnos.uahurtado.cl">
			</div>
			
			<div id="balanceDiv" class="balance" style="display: none;">
				Monedas disponibles: <span id="currentBalance">0</span> 🪙
			</div>
			
			<div class="shop-items">
				<div class="shop-item">
					<div class="item-header">
						<div class="item-icon">📊</div>
						<div class="item-name">Décima Extra</div>
						<div class="item-price">250 🪙 cada una</div>
					</div>
					<div class="item-description">
						Agrega 0.1 puntos a tu promedio general. ¡Mejora tus notas!
					</div>
					<div class="purchase-form">
						<input type="number" class="quantity-input" min="1" max="10" value="1" 
							   id="decimal-quantity">
						<button class="buy-btn" onclick="purchaseItem('decimal')">
							Comprar
						</button>
					</div>
				</div>
				
				<div class="shop-item">
					<div class="item-header">
						<div class="item-icon">⚡</div>
						<div class="item-name">Experiencia Boost</div>
						<div class="item-price">150 🪙 por 100 XP</div>
					</div>
					<div class="item-description">
						Gana experiencia instantánea para subir de nivel más rápido.
					</div>
					<div class="purchase-form">
						<input type="number" class="quantity-input" min="1" max="20" value="1" 
							   id="experience-quantity">
						<button class="buy-btn" onclick="purchaseItem('experience')">
							Comprar
						</button>
					</div>
				</div>
			</div>
			
			<div id="result"></div>
		</div>

		<script>
			document.getElementById('username').addEventListener('blur', async (e) => {
				const username = e.target.value;
				if (username) {
					try {
						const response = await fetch(`/balance/${encodeURIComponent(username)}`);
						if (response.ok) {
							const data = await response.json();
							document.getElementById('currentBalance').textContent = data.coins;
							document.getElementById('balanceDiv').style.display = 'block';
						} else {
							document.getElementById('balanceDiv').style.display = 'none';
						}
					} catch (error) {
						console.log('Usuario no encontrado en el sistema');
						document.getElementById('balanceDiv').style.display = 'none';
					}
				}
			});

			async function purchaseItem(itemType) {
				const username = document.getElementById('username').value;
				if (!username) {
					alert('Por favor, ingresa tu email primero');
					return;
				}

				const quantity = document.getElementById(`${itemType}-quantity`).value;
				const resultDiv = document.getElementById('result');

				try {
					const response = await fetch('/purchase', {
						method: 'POST',
						headers: {
							'Content-Type': 'application/x-www-form-urlencoded',
						},
						body: new URLSearchParams({
							username: username,
							item_type: itemType,
							quantity: quantity
						})
					});

					if (response.ok) {
						const data = await response.json();
						if (data.success) {
							resultDiv.innerHTML = `
								<div class="result success">
									<h3>¡Compra exitosa!</h3>
									<p>${data.message}</p>
									<p>Monedas gastadas: ${data.coins_spent} 🪙</p>
									<p>Monedas restantes: ${data.new_balance} 🪙</p>
								</div>
							`;
							document.getElementById('currentBalance').textContent = data.new_balance;
						} else {
							resultDiv.innerHTML = `<div class="result error">${data.message}</div>`;
						}
					} else {
						const error = await response.text();
						resultDiv.innerHTML = `<div class="result error">Error: ${error}</div>`;
					}
				} catch (error) {
					resultDiv.innerHTML = `<div class="result error">Error de red: ${error.message}</div>`;
				}
			}
		</script>
	</body>
	</html>
	"#
}

/// The slots game page.
pub fn slots_page() -> (r: &'static str) {
    r#"
	<!DOCTYPE html>
	<html>
	<head>
		<title>Slots Game - UCampus EduGame</title>
		<style>
			/* Reutilizar estilos del index más estilos específicos para slots */
			body {
				font-family: Arial, sans-serif;
				max-width: 800px;
				margin: 50px auto;
				padding: 20px;
				background: #f5f5f5;
			}
			.container {
				background: white;
				padding: 30px;
				border-radius: 10px;
				box-shadow: 0 2px 10px rgba(0,0,0,0.1);
			}
			h1 {
				color: #333;
				text-align: center;
				margin-bottom: 30px;
			}
			.navigation {
				text-align: center;
				margin-bottom: 20px;
			}
			.nav-button {
				display: inline-block;
				margin: 0 10px 10px;
				padding: 10px 20px;
				background: #007bff;
				color: white;
				text-decoration: none;
				border-radius: 5px;
				transition: background 0.3s;
			}
			.nav-button:hover {
				background: #0056b3;
			}
			.slots-machine {
				display: flex;
				justify-content: center;
				gap: 10px;
				margin: 30px 0;
				padding: 20px;
				background: #333;
				border-radius: 10px;
				position: relative;
			}
			.reel {
				width: 80px;
				height: 80px;
				background: white;
				border: 3px solid #ffd700;
				border-radius: 10px;
				display: flex;
				align-items: center;
				justify-content: center;
				font-size: 24px;
				font-weight: bold;
				position: relative;
				overflow: hidden;
			}
			.reel-content {
				display: flex;
				flex-direction: column;
				align-items: center;
				justify-content: center;
				height: 100%;
				transition: transform 0.1s ease;
			}
			.reel.spinning .reel-content {
				animation: spin 0.1s linear infinite;
			}
			.reel.stopping .reel-content {
				animation: none;
			}
			@keyframes spin {
				0% { transform: translateY(0); }
				100% { transform: translateY(-100px); }
			}
			@keyframes flash {
				0%, 100% { background: white; }
				50% { background: #ffd700; }
			}
			.reel.winner {
				animation: flash 0.5s ease-in-out 3;
			}
			.controls {
				text-align: center;
				margin: 20px 0;
			}
			.bet-input {
				padding: 10px;
				margin: 0 10px;
				border: 1px solid #ddd;
				border-radius: 5px;
				width: 100px;
			}
			.spin-btn {
				padding: 15px 30px;
				background: #28a745;
				color: white;
				border: none;
				border-radius: 5px;
				font-size: 18px;
				cursor: pointer;
				margin: 0 10px;
				transition: all 0.3s;
			}
			.spin-btn:disabled {
				background: #ccc;
				cursor: not-allowed;
			}
			.spin-btn:hover:not(:disabled) {
				background: #218838;
				transform: scale(1.05);
			}
			.result {
				text-align: center;
				margin: 20px 0;
				padding: 15px;
				border-radius: 5px;
				opacity: 0;
				transform: translateY(20px);
				transition: all 0.5s ease;
			}
			.result.show {
				opacity: 1;
				transform: translateY(0);
			}
			.win { 
				background: #d4edda; 
				color: #155724; 
				border: 2px solid #28a745;
			}
			.lose { 
				background: #f8d7da; 
				color: #721c24; 
				border: 2px solid #dc3545;
			}
			.coins-animation {
				position: absolute;
				top: 50%;
				left: 50%;
				transform: translate(-50%, -50%);
				font-size: 30px;
				color: #ffd700;
				animation: coinsFall 2s ease-out forwards;
				pointer-events: none;
			}
			@keyframes coinsFall {
				0% {
					opacity: 1;
					transform: translate(-50%, -50%) scale(1);
				}
				100% {
					opacity: 0;
					transform: translate(-50%, 50px) scale(1.5);
				}
			}
		</style>
	</head>
	<body>
		<div class="container">
			<h1>🎰 Slots Game</h1>
			<div class="navigation">
				<a href="/" class="nav-button">🏠 Inicio</a>
				<a href="/leaderboard" class="nav-button">🏆 Leaderboard</a>
				<a href="/coinflip" class="nav-button">🪙 Coin Flip Game</a>
				<a href="/shop" class="nav-button">🛒 Tienda</a>
			</div>
			
			<div id="balance" style="text-align: center; font-size: 18px; margin-bottom: 20px;">
				Monedas disponibles: <span id="balanceAmount">-</span> 🪙
			</div>
			
			<div class="slots-machine" id="slotsContainer">
				<div class="reel" id="reel1">
					<div class="reel-content">?</div>
				</div>
				<div class="reel" id="reel2">
					<div class="reel-content">?</div>
				</div>
				<div class="reel" id="reel3">
					<div class="reel-content">?</div>
				</div>
			</div>
			
			<div class="controls">
				<input type="text" id="username" placeholder="Tu email" style="margin-right: 10px; padding: 10px;">
				<input type="number" id="betAmount" placeholder="Apuesta" min="1" class="bet-input">
				<button id="spinBtn" class="spin-btn">Girar</button>
			</div>
			
			<div id="result"></div>
			
			<div style="text-align: center; margin-top: 30px; font-size: 14px;">
				<p><strong>Pagos:</strong></p>
				<p>3 símbolos iguales: 10x tu apuesta</p>
				<p>2 símbolos iguales: 3x tu apuesta</p>
			</div>
		</div>

		<script>
			const symbolEmojis = {
				'IHatePyhisics': '💻',
				'IDontLikeAlgebra': '🔥',
				'ILikeCounterStrike': '⚡',
				'IHateVisualStudio': '🌟',
				'ILikeSublimeText': '🎭',
				'ILikeCaffeine': '⚔️',
				'PythonIsTrash': '📊',
				'NobodyWillReadThisxD': '🌐'
			};

			const allSymbols = Object.keys(symbolEmojis);
			let isSpinning = false;

			document.getElementById('spinBtn').addEventListener('click', async () => {
				if (isSpinning) return;

				const username = document.getElementById('username').value;
				const betAmount = document.getElementById('betAmount').value;
				
				if (!username || !betAmount) {
					alert('Por favor ingresa tu email y monto de apuesta');
					return;
				}

				isSpinning = true;
				const spinBtn = document.getElementById('spinBtn');
				spinBtn.disabled = true;
				spinBtn.textContent = 'SPINNING...';

				const resultDiv = document.getElementById('result');
				resultDiv.classList.remove('show');
				resultDiv.innerHTML = '';

				try {
					startSpinAnimation();

					const response = await fetch('/play-slots', {
						method: 'POST',
						headers: { 'Content-Type': 'application/x-www-form-urlencoded' },
						body: `username=${encodeURIComponent(username)}&amount=${betAmount}`
					});

					if (response.ok) {
						const result = await response.json();
						await displayResult(result);
					} else {
						const error = await response.text();
						stopAllSpins();
						document.getElementById('result').innerHTML = 
							`<div class="result lose show">Error: ${error}</div>`;
					}
				} catch (error) {
					stopAllSpins();
					document.getElementById('result').innerHTML = 
						`<div class="result lose show">Error de red: ${error.message}</div>`;
				} finally {
					isSpinning = false;
					spinBtn.disabled = false;
					spinBtn.textContent = 'SPIN';
				}
			});

			function startSpinAnimation() {
				for (let i = 1; i <= 3; i++) {
					const reel = document.getElementById(`reel${i}`);
					reel.classList.add('spinning');
					reel.classList.remove('winner');
					
					const content = reel.querySelector('.reel-content');
					const spinInterval = setInterval(() => {
						const randomSymbol = allSymbols[Math.floor(Math.random() * allSymbols.length)];
						content.textContent = symbolEmojis[randomSymbol];
					}, 100);
					
					reel.spinInterval = spinInterval;
				}
			}

			function stopReel(reelNumber, symbol, delay = 0) {
				return new Promise((resolve) => {
					setTimeout(() => {
						const reel = document.getElementById(`reel${reelNumber}`);
						const content = reel.querySelector('.reel-content');
						
						reel.classList.remove('spinning');
						reel.classList.add('stopping');
						
						if (reel.spinInterval) {
							clearInterval(reel.spinInterval);
							reel.spinInterval = null;
						}
						
						content.textContent = symbolEmojis[symbol] || symbol;
						
						setTimeout(() => {
							reel.classList.remove('stopping');
							resolve();
						}, 200);
					}, delay);
				});
			}

			function stopAllSpins() {
				for (let i = 1; i <= 3; i++) {
					const reel = document.getElementById(`reel${i}`);
					reel.classList.remove('spinning', 'stopping');
					if (reel.spinInterval) {
						clearInterval(reel.spinInterval);
						reel.spinInterval = null;
					}
				}
			}

			async function displayResult(result) {
				await stopReel(1, result.symbols[0], 500);
				await stopReel(2, result.symbols[1], 500);
				await stopReel(3, result.symbols[2], 500);

				document.getElementById('balanceAmount').textContent = result.new_balance;

				setTimeout(() => {
					const resultDiv = document.getElementById('result');
					if (result.won) {
						highlightWinningReels(result.symbols);
						
						showCoinsAnimation(result.payout);
						
						resultDiv.innerHTML = `
							<div class="result win">
								<h3>¡GANASTE! ${result.win_type}</h3>
								<p>Ganaste: ${result.payout} 🪙</p>
								<p>Nuevo balance: ${result.new_balance} 🪙</p>
							</div>
						`;
					} else {
						resultDiv.innerHTML = `
							<div class="result lose">
								<h3>No hay suerte esta vez</h3>
								<p>Perdiste: ${result.amount_wagered} 🪙</p>
								<p>Nuevo balance: ${result.new_balance} 🪙</p>
							</div>
						`;
					}
					
					setTimeout(() => {
						resultDiv.querySelector('.result').classList.add('show');
					}, 100);
				}, 300);
			}

			function highlightWinningReels(symbols) {
				const symbol1 = symbols[0];
				const symbol2 = symbols[1];
				const symbol3 = symbols[2];
				
				if (symbol1 === symbol2 && symbol2 === symbol3) {
					for (let i = 1; i <= 3; i++) {
						document.getElementById(`reel${i}`).classList.add('winner');
					}
				} else if (symbol1 === symbol2) {
					document.getElementById('reel1').classList.add('winner');
					document.getElementById('reel2').classList.add('winner');
				} else if (symbol2 === symbol3) {
					document.getElementById('reel2').classList.add('winner');
					document.getElementById('reel3').classList.add('winner');
				} else if (symbol1 === symbol3) {
					document.getElementById('reel1').classList.add('winner');
					document.getElementById('reel3').classList.add('winner');
				}
			}

			function showCoinsAnimation(payout) {
				const container = document.getElementById('slotsContainer');
				const coinsEl = document.createElement('div');
				coinsEl.className = 'coins-animation';
				coinsEl.textContent = `+${payout} 🪙`;
				container.appendChild(coinsEl);
				
				setTimeout(() => {
					container.removeChild(coinsEl);
				}, 2000);
			}

			document.getElementById('username').addEventListener('blur', async (e) => {
				if (e.target.value) {
					try {
						const response = await fetch(`/balance/${encodeURIComponent(e.target.value)}`);
						if (response.ok) {
							const student = await response.json();
							document.getElementById('balanceAmount').textContent = student.coins;
						}
					} catch (error) {
						console.log('No se pudo cargar el balance');
					}
				}
			});
		</script>
	</body>
	</html>
	"#
}

} // verus!
